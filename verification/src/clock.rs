//! Wall-clock time as the frame timestamp: milliseconds since the Unix epoch.

use vstd::prelude::*;

verus! {

/// `std::time::SystemTime`, an instant of the machine's clock. Nothing
/// inside it is visible here.
#[verifier::external_type_specification]
#[verifier::external_body]
pub struct ExSystemTime(std::time::SystemTime);

/// `std::time::SystemTimeError`, which says that an instant lies before the
/// one it was measured from. Nothing inside it is visible here.
#[verifier::external_type_specification]
#[verifier::external_body]
pub struct ExSystemTimeError(std::time::SystemTimeError);

/// `SystemTime::now` reads the machine's clock. Nothing is claimed of the
/// instant it returns.
pub assume_specification[ std::time::SystemTime::now ]() -> (t: std::time::SystemTime)
;

/// `SystemTime::duration_since`, measured from `UNIX_EPOCH`: the time elapsed
/// from the epoch to `t`, or an error when `t` lies before the epoch. Nothing
/// is claimed of which of the two comes back, nor of the duration.
#[verifier::external_body]
fn elapsed_since_epoch(t: &std::time::SystemTime) -> (r: Result<
    std::time::Duration,
    std::time::SystemTimeError,
>) {
    t.duration_since(std::time::UNIX_EPOCH)
}

/// `Duration::as_millis` gives the whole milliseconds that a duration holds.
/// A duration is opaque here, so nothing is claimed of the number.
pub assume_specification[ std::time::Duration::as_millis ](d: &std::time::Duration) -> (ms: u128)
;

/// One more than the largest timestamp that a frame can carry.
pub open spec fn stamp_modulus() -> int {
    0x1_0000_0000_0000_0000
}

/// The timestamp for a clock reading: the elapsed milliseconds reduced to 64
/// bits, and zero when the clock stands before the epoch.
pub open spec fn stamp_of(elapsed_ms: Option<u128>) -> u64 {
    match elapsed_ms {
        Some(ms) => (ms as int % stamp_modulus()) as u64,
        None => 0,
    }
}

/// Turns a clock reading into a frame timestamp.
///
/// `elapsed_ms` is the number of milliseconds since the Unix epoch, or `None`
/// when the clock stands before the epoch.
pub fn timestamp_from(elapsed_ms: Option<u128>) -> (r: u64)
    ensures
        r == stamp_of(elapsed_ms),
{
    match elapsed_ms {
        Some(ms) => {
            let low: u128 = ms % 0x1_0000_0000_0000_0000u128;
            low as u64
        },
        None => 0,
    }
}

/// Milliseconds since the Unix epoch by the machine's clock, as a frame
/// carries them; zero when the clock stands before the epoch.
///
/// The value depends on the moment of the call: it is the timestamp of some
/// clock reading, and [`timestamp_from`] says how a reading becomes one.
pub fn now_ms() -> (r: u64)
    ensures
        exists|elapsed_ms: Option<u128>| r == #[trigger] stamp_of(elapsed_ms),
{
    let now = std::time::SystemTime::now();
    let elapsed_ms = match elapsed_since_epoch(&now) {
        Ok(elapsed) => Some(elapsed.as_millis()),
        Err(_) => None,
    };
    timestamp_from(elapsed_ms)
}

} // verus!
