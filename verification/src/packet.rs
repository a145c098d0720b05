//! The binary frame: a fixed 24-byte header followed by the payload.
//!
//! | offset | size | field                                   |
//! |--------|------|-----------------------------------------|
//! | 0      | 4    | magic, ASCII `QDAV`                     |
//! | 4      | 1    | protocol version                        |
//! | 5      | 1    | source tag                              |
//! | 6      | 1    | codec identifier                        |
//! | 7      | 1    | channel count                           |
//! | 8      | 2    | sample rate, little-endian              |
//! | 10     | 2    | payload length, little-endian           |
//! | 12     | 4    | sequence number, little-endian          |
//! | 16     | 8    | send time in epoch milliseconds, little-endian |
//!
//! A payload longer than 65535 bytes is cut to its first 65535 bytes; the
//! length field always gives the number of payload bytes in the frame.

use vstd::prelude::*;
use crate::clock::now_ms;
use crate::codec::Codec;

verus! {

/// Number of bytes in a frame header.
pub const HEADER_SIZE: usize = 24;

/// The protocol version that this library writes and accepts.
pub const PROTOCOL_VERSION: u8 = 1;

/// The largest number of payload bytes that one frame carries.
pub const MAX_PAYLOAD: usize = 65535;

/// The fields of a frame header.
#[derive(Clone, Copy, Debug, PartialEq, Eq, Structural)]
pub struct FrameHeader {
    /// Logical origin of the audio.
    pub source: u8,
    /// Encoding of the payload.
    pub codec: Codec,
    /// Number of interleaved channels.
    pub channels: u8,
    /// Samples per second.
    pub sample_rate: u16,
    /// Number of payload bytes that follow the header.
    pub payload_len: u16,
    /// Position of the frame in the order of sending.
    pub sequence: u32,
    /// Send time, in milliseconds since the Unix epoch.
    pub timestamp_ms: u64,
}

/// Why a byte buffer does not start with a frame header.
#[derive(Clone, Copy, Debug, PartialEq, Eq, Structural)]
pub enum HeaderError {
    /// Fewer than 24 bytes.
    TooShort,
    /// The first four bytes are not `QDAV`.
    BadMagic,
    /// The version byte is not 1.
    BadVersion,
    /// The codec byte names no codec.
    UnknownCodec,
}

/// The magic tag, ASCII `QDAV`.
pub open spec fn magic() -> Seq<u8> {
    seq![0x51u8, 0x44u8, 0x41u8, 0x56u8]
}

/// A 16-bit value, least significant byte first.
pub open spec fn u16_le(v: u16) -> Seq<u8> {
    seq![(v % 256) as u8, (v / 256) as u8]
}

/// A 32-bit value, least significant byte first.
pub open spec fn u32_le(v: u32) -> Seq<u8> {
    seq![
        (v % 256) as u8,
        (v / 0x100 % 256) as u8,
        (v / 0x1_0000 % 256) as u8,
        (v / 0x100_0000) as u8,
    ]
}

/// A 64-bit value, least significant byte first.
pub open spec fn u64_le(v: u64) -> Seq<u8> {
    seq![
        (v % 256) as u8,
        (v / 0x100 % 256) as u8,
        (v / 0x1_0000 % 256) as u8,
        (v / 0x100_0000 % 256) as u8,
        (v / 0x1_0000_0000 % 256) as u8,
        (v / 0x100_0000_0000 % 256) as u8,
        (v / 0x1_0000_0000_0000 % 256) as u8,
        (v / 0x100_0000_0000_0000) as u8,
    ]
}

/// The value that little-endian bytes hold: the first byte counts least.
pub open spec fn le_value(s: Seq<u8>) -> nat
    decreases s.len(),
{
    if s.len() == 0 {
        0
    } else {
        s[0] as nat + 256 * le_value(s.drop_first())
    }
}

/// The 24 bytes of a header.
pub open spec fn header_bytes(h: FrameHeader) -> Seq<u8> {
    magic() + seq![PROTOCOL_VERSION, h.source, h.codec.spec_id(), h.channels] + u16_le(
        h.sample_rate,
    ) + u16_le(h.payload_len) + u32_le(h.sequence) + u64_le(h.timestamp_ms)
}

/// The number of payload bytes that a frame carries for a payload of `n` bytes.
pub open spec fn clamped_len(n: nat) -> nat {
    if n > 65535 {
        65535
    } else {
        n
    }
}

/// The header of the frame that carries `payload`.
pub open spec fn header_for(
    source: u8,
    codec: Codec,
    channels: u8,
    sample_rate: u16,
    sequence: u32,
    timestamp_ms: u64,
    payload: Seq<u8>,
) -> FrameHeader {
    FrameHeader {
        source,
        codec,
        channels,
        sample_rate,
        payload_len: clamped_len(payload.len()) as u16,
        sequence,
        timestamp_ms,
    }
}

/// The bytes of a whole frame: the header, then the payload cut to the
/// length that the header gives.
pub open spec fn frame_bytes(
    source: u8,
    codec: Codec,
    channels: u8,
    sample_rate: u16,
    sequence: u32,
    timestamp_ms: u64,
    payload: Seq<u8>,
) -> Seq<u8> {
    header_bytes(
        header_for(source, codec, channels, sample_rate, sequence, timestamp_ms, payload),
    ) + payload.take(clamped_len(payload.len()) as int)
}

/// What reading a header from the front of `bytes` gives.
pub open spec fn parse_header(bytes: Seq<u8>) -> Result<FrameHeader, HeaderError> {
    if bytes.len() < 24 {
        Err(HeaderError::TooShort)
    } else if bytes.take(4) != magic() {
        Err(HeaderError::BadMagic)
    } else if bytes[4] != PROTOCOL_VERSION {
        Err(HeaderError::BadVersion)
    } else if bytes[6] != 1 && bytes[6] != 2 {
        Err(HeaderError::UnknownCodec)
    } else {
        Ok(
            FrameHeader {
                source: bytes[5],
                codec: if bytes[6] == 1 {
                    Codec::Opus
                } else {
                    Codec::Pcm16Le
                },
                channels: bytes[7],
                sample_rate: le_value(bytes.subrange(8, 10)) as u16,
                payload_len: le_value(bytes.subrange(10, 12)) as u16,
                sequence: le_value(bytes.subrange(12, 16)) as u32,
                timestamp_ms: le_value(bytes.subrange(16, 24)) as u64,
            },
        )
    }
}

fn push_u16_le(out: &mut Vec<u8>, v: u16)
    ensures
        final(out)@ == old(out)@ + u16_le(v),
{
    out.push((v % 256) as u8);
    out.push((v / 256) as u8);
    assert(out@ =~= old(out)@ + u16_le(v));
}

fn push_u32_le(out: &mut Vec<u8>, v: u32)
    ensures
        final(out)@ == old(out)@ + u32_le(v),
{
    out.push((v % 256) as u8);
    out.push((v / 0x100 % 256) as u8);
    out.push((v / 0x1_0000 % 256) as u8);
    out.push((v / 0x100_0000) as u8);
    assert(out@ =~= old(out)@ + u32_le(v));
}

fn push_u64_le(out: &mut Vec<u8>, v: u64)
    ensures
        final(out)@ == old(out)@ + u64_le(v),
{
    out.push((v % 256) as u8);
    out.push((v / 0x100 % 256) as u8);
    out.push((v / 0x1_0000 % 256) as u8);
    out.push((v / 0x100_0000 % 256) as u8);
    out.push((v / 0x1_0000_0000 % 256) as u8);
    out.push((v / 0x100_0000_0000 % 256) as u8);
    out.push((v / 0x1_0000_0000_0000 % 256) as u8);
    out.push((v / 0x100_0000_0000_0000) as u8);
    assert(out@ =~= old(out)@ + u64_le(v));
}

/// Frames `payload` with the given header fields and send time.
///
/// The result is the 24-byte header followed by the payload; of a payload
/// longer than 65535 bytes only the first 65535 are taken, and the length
/// field says so.
pub fn encode_frame(
    source: u8,
    codec: Codec,
    channels: u8,
    sample_rate: u16,
    sequence: u32,
    timestamp_ms: u64,
    payload: &[u8],
) -> (out: Vec<u8>)
    ensures
        out@ == frame_bytes(
            source,
            codec,
            channels,
            sample_rate,
            sequence,
            timestamp_ms,
            payload@,
        ),
        out@.len() == 24 + clamped_len(payload@.len()),
{
    let taken: usize = if payload.len() > MAX_PAYLOAD {
        MAX_PAYLOAD
    } else {
        payload.len()
    };
    let payload_len: u16 = taken as u16;
    let mut out: Vec<u8> = Vec::with_capacity(HEADER_SIZE + taken);
    out.push(0x51);
    out.push(0x44);
    out.push(0x41);
    out.push(0x56);
    out.push(PROTOCOL_VERSION);
    out.push(source);
    out.push(codec.id());
    out.push(channels);
    assert(out@ =~= magic() + seq![PROTOCOL_VERSION, source, codec.spec_id(), channels]);
    push_u16_le(&mut out, sample_rate);
    push_u16_le(&mut out, payload_len);
    push_u32_le(&mut out, sequence);
    push_u64_le(&mut out, timestamp_ms);
    let ghost head = out@;
    let body = vstd::slice::slice_subrange(payload, 0, taken);
    out.extend_from_slice(body);
    proof {
        assert(body@ == payload@.take(taken as int));
        assert(out@ =~= head + body@);
    }
    out
}

/// Frames `payload` as [`encode_frame`] does, stamped with the time of the
/// call.
///
/// The send time is read from the machine's clock, so the result is the frame
/// for some timestamp; every other byte is fixed by the arguments.
pub fn build_packet(
    source: u8,
    codec: Codec,
    channels: u8,
    sample_rate: u16,
    sequence: u32,
    payload: &[u8],
) -> (out: Vec<u8>)
    ensures
        exists|timestamp_ms: u64|
            out@ == #[trigger] frame_bytes(
                source,
                codec,
                channels,
                sample_rate,
                sequence,
                timestamp_ms,
                payload@,
            ),
        out@.len() == 24 + clamped_len(payload@.len()),
        out@.take(4) == magic(),
        le_value(out@.subrange(10, 12)) == clamped_len(payload@.len()),
        parse_header(out@) matches Ok(header) && header.source == source && header.codec == codec
            && header.channels == channels && header.sample_rate == sample_rate
            && header.payload_len == clamped_len(payload@.len()) && header.sequence == sequence,
{
    let timestamp_ms = now_ms();
    proof {
        lemma_frame_magic_and_length_field(
            source,
            codec,
            channels,
            sample_rate,
            sequence,
            timestamp_ms,
            payload@,
        );
        lemma_frame_round_trip(
            source,
            codec,
            channels,
            sample_rate,
            sequence,
            timestamp_ms,
            payload@,
        );
    }
    encode_frame(source, codec, channels, sample_rate, sequence, timestamp_ms, payload)
}

/// Reads the header at the front of `bytes`.
///
/// Fails on fewer than 24 bytes, then on a wrong magic tag, then on a version
/// other than 1, then on a codec byte other than 1 or 2. The bytes that follow
/// the header are not looked at.
pub fn decode_header(bytes: &[u8]) -> (r: Result<FrameHeader, HeaderError>)
    ensures
        r == parse_header(bytes@),
{
    if bytes.len() < HEADER_SIZE {
        return Err(HeaderError::TooShort);
    }
    if bytes[0] != 0x51 || bytes[1] != 0x44 || bytes[2] != 0x41 || bytes[3] != 0x56 {
        assert(bytes@.take(4) != magic()) by {
            if bytes@.take(4) == magic() {
                assert(bytes@.take(4)[0] == magic()[0]);
                assert(bytes@.take(4)[1] == magic()[1]);
                assert(bytes@.take(4)[2] == magic()[2]);
                assert(bytes@.take(4)[3] == magic()[3]);
            }
        }
        return Err(HeaderError::BadMagic);
    }
    assert(bytes@.take(4) =~= magic());
    if bytes[4] != PROTOCOL_VERSION {
        return Err(HeaderError::BadVersion);
    }
    let codec = match Codec::from_id(bytes[6]) {
        Some(codec) => codec,
        None => {
            return Err(HeaderError::UnknownCodec);
        },
    };
    proof {
        lemma_le_value_2(bytes@.subrange(8, 10));
        lemma_le_value_2(bytes@.subrange(10, 12));
        lemma_le_value_4(bytes@.subrange(12, 16));
        lemma_le_value_8(bytes@.subrange(16, 24));
    }
    let sample_rate: u16 = bytes[8] as u16 + 256 * (bytes[9] as u16);
    let payload_len: u16 = bytes[10] as u16 + 256 * (bytes[11] as u16);
    let sequence: u32 = bytes[12] as u32 + 0x100 * (bytes[13] as u32) + 0x1_0000 * (bytes[14] as u32)
        + 0x100_0000 * (bytes[15] as u32);
    let timestamp_ms: u64 = bytes[16] as u64 + 0x100 * (bytes[17] as u64) + 0x1_0000 * (
    bytes[18] as u64) + 0x100_0000 * (bytes[19] as u64) + 0x1_0000_0000 * (bytes[20] as u64)
        + 0x100_0000_0000 * (bytes[21] as u64) + 0x1_0000_0000_0000 * (bytes[22] as u64)
        + 0x100_0000_0000_0000 * (bytes[23] as u64);
    Ok(
        FrameHeader {
            source: bytes[5],
            codec,
            channels: bytes[7],
            sample_rate,
            payload_len,
            sequence,
            timestamp_ms,
        },
    )
}

/// The value of two little-endian bytes.
pub proof fn lemma_le_value_2(s: Seq<u8>)
    requires
        s.len() == 2,
    ensures
        le_value(s) == s[0] + 0x100 * s[1],
{
    reveal_with_fuel(le_value, 3);
    let a = s.drop_first();
    assert(a[0] == s[1]);
    assert(a.drop_first().len() == 0);
}

/// The value of four little-endian bytes.
pub proof fn lemma_le_value_4(s: Seq<u8>)
    requires
        s.len() == 4,
    ensures
        le_value(s) == s[0] + 0x100 * s[1] + 0x1_0000 * s[2] + 0x100_0000 * s[3],
{
    let a = s.drop_first();
    let b = a.drop_first();
    assert(a[0] == s[1]);
    assert(b =~= seq![s[2], s[3]]);
    lemma_le_value_2(b);
    assert(le_value(a) == a[0] as nat + 256 * le_value(b));
    assert(le_value(s) == s[0] as nat + 256 * le_value(a));
}

/// The value of eight little-endian bytes.
pub proof fn lemma_le_value_8(s: Seq<u8>)
    requires
        s.len() == 8,
    ensures
        le_value(s) == s[0] + 0x100 * s[1] + 0x1_0000 * s[2] + 0x100_0000 * s[3] + 0x1_0000_0000
            * s[4] + 0x100_0000_0000 * s[5] + 0x1_0000_0000_0000 * s[6] + 0x100_0000_0000_0000
            * s[7],
{
    let a = s.drop_first();
    let b = a.drop_first();
    let c = b.drop_first();
    let d = c.drop_first();
    assert(a[0] == s[1]);
    assert(b[0] == s[2]);
    assert(c[0] == s[3]);
    assert(d =~= seq![s[4], s[5], s[6], s[7]]);
    lemma_le_value_4(d);
    assert(le_value(c) == c[0] as nat + 256 * le_value(d));
    assert(le_value(b) == b[0] as nat + 256 * le_value(c));
    assert(le_value(a) == a[0] as nat + 256 * le_value(b));
    assert(le_value(s) == s[0] as nat + 256 * le_value(a));
}

/// The two bytes written for a 16-bit value hold that value.
pub proof fn lemma_u16_le_value(v: u16)
    ensures
        u16_le(v).len() == 2,
        le_value(u16_le(v)) == v,
{
    lemma_le_value_2(u16_le(v));
}

/// The bytes of a 32-bit value, weighted by their place, add up to the value.
proof fn lemma_u32_byte_sum(v: u32)
    ensures
        v == v % 256 + 0x100 * (v / 0x100 % 256) + 0x1_0000 * (v / 0x1_0000 % 256) + 0x100_0000 * (v
            / 0x100_0000),
        v / 0x100_0000 < 256,
{
    let x = v as int;
    let q1 = x / 0x100;
    let q2 = q1 / 0x100;
    let q3 = q2 / 0x100;
    vstd::arithmetic::div_mod::lemma_div_denominator(x, 0x100, 0x100);
    vstd::arithmetic::div_mod::lemma_div_denominator(x, 0x1_0000, 0x100);
    assert(x / 0x1_0000 == q2);
    assert(x / 0x100_0000 == q3);
}

/// The bytes of a 64-bit value, weighted by their place, add up to the value.
proof fn lemma_u64_byte_sum(v: u64)
    ensures
        v == v % 256 + 0x100 * (v / 0x100 % 256) + 0x1_0000 * (v / 0x1_0000 % 256) + 0x100_0000 * (v
            / 0x100_0000 % 256) + 0x1_0000_0000 * (v / 0x1_0000_0000 % 256) + 0x100_0000_0000 * (v
            / 0x100_0000_0000 % 256) + 0x1_0000_0000_0000 * (v / 0x1_0000_0000_0000 % 256)
            + 0x100_0000_0000_0000 * (v / 0x100_0000_0000_0000),
        v / 0x100_0000_0000_0000 < 256,
{
    let x = v as int;
    let q1 = x / 0x100;
    let q2 = q1 / 0x100;
    let q3 = q2 / 0x100;
    let q4 = q3 / 0x100;
    let q5 = q4 / 0x100;
    let q6 = q5 / 0x100;
    let q7 = q6 / 0x100;
    vstd::arithmetic::div_mod::lemma_div_denominator(x, 0x100, 0x100);
    assert(x / 0x1_0000 == q2);
    vstd::arithmetic::div_mod::lemma_div_denominator(x, 0x1_0000, 0x100);
    assert(x / 0x100_0000 == q3);
    vstd::arithmetic::div_mod::lemma_div_denominator(x, 0x100_0000, 0x100);
    assert(x / 0x1_0000_0000 == q4);
    vstd::arithmetic::div_mod::lemma_div_denominator(x, 0x1_0000_0000, 0x100);
    assert(x / 0x100_0000_0000 == q5);
    vstd::arithmetic::div_mod::lemma_div_denominator(x, 0x100_0000_0000, 0x100);
    assert(x / 0x1_0000_0000_0000 == q6);
    vstd::arithmetic::div_mod::lemma_div_denominator(x, 0x1_0000_0000_0000, 0x100);
    assert(x / 0x100_0000_0000_0000 == q7);
    assert(x == 256 * q1 + x % 256);
    assert(q1 == 256 * q2 + q1 % 256);
    assert(q2 == 256 * q3 + q2 % 256);
    assert(q3 == 256 * q4 + q3 % 256);
    assert(q4 == 256 * q5 + q4 % 256);
    assert(q5 == 256 * q6 + q5 % 256);
    assert(q6 == 256 * q7 + q6 % 256);
}

/// The four bytes written for a 32-bit value hold that value.
pub proof fn lemma_u32_le_value(v: u32)
    ensures
        u32_le(v).len() == 4,
        le_value(u32_le(v)) == v,
{
    lemma_u32_byte_sum(v);
    lemma_le_value_4(u32_le(v));
}

/// The eight bytes written for a 64-bit value hold that value.
pub proof fn lemma_u64_le_value(v: u64)
    ensures
        u64_le(v).len() == 8,
        le_value(u64_le(v)) == v,
{
    lemma_u64_byte_sum(v);
    lemma_le_value_8(u64_le(v));
}

/// Where each field stands in the 24 bytes of a header.
pub proof fn lemma_header_layout(h: FrameHeader)
    ensures
        header_bytes(h).len() == 24,
        header_bytes(h).take(4) == magic(),
        header_bytes(h)[4] == PROTOCOL_VERSION,
        header_bytes(h)[5] == h.source,
        header_bytes(h)[6] == h.codec.spec_id(),
        header_bytes(h)[7] == h.channels,
        header_bytes(h).subrange(8, 10) == u16_le(h.sample_rate),
        header_bytes(h).subrange(10, 12) == u16_le(h.payload_len),
        header_bytes(h).subrange(12, 16) == u32_le(h.sequence),
        header_bytes(h).subrange(16, 24) == u64_le(h.timestamp_ms),
{
    let b = header_bytes(h);
    assert(b.take(4) =~= magic());
    assert(b.subrange(8, 10) =~= u16_le(h.sample_rate));
    assert(b.subrange(10, 12) =~= u16_le(h.payload_len));
    assert(b.subrange(12, 16) =~= u32_le(h.sequence));
    assert(b.subrange(16, 24) =~= u64_le(h.timestamp_ms));
}

/// Reading back a written header gives the header, whatever follows it.
pub proof fn lemma_header_round_trip(h: FrameHeader, rest: Seq<u8>)
    ensures
        parse_header(header_bytes(h) + rest) == Ok::<FrameHeader, HeaderError>(h),
{
    lemma_header_layout(h);
    lemma_u16_le_value(h.sample_rate);
    lemma_u16_le_value(h.payload_len);
    lemma_u32_le_value(h.sequence);
    lemma_u64_le_value(h.timestamp_ms);
    let head = header_bytes(h);
    let bytes = head + rest;
    assert(bytes.take(4) =~= head.take(4));
    assert(bytes[4] == head[4]);
    assert(bytes[5] == head[5]);
    assert(bytes[6] == head[6]);
    assert(bytes[7] == head[7]);
    assert(bytes.subrange(8, 10) =~= head.subrange(8, 10));
    assert(bytes.subrange(10, 12) =~= head.subrange(10, 12));
    assert(bytes.subrange(12, 16) =~= head.subrange(12, 16));
    assert(bytes.subrange(16, 24) =~= head.subrange(16, 24));
}

/// A frame is exactly 24 bytes longer than the part of the payload that it
/// carries: the whole payload, or its first 65535 bytes.
pub proof fn lemma_frame_length(
    source: u8,
    codec: Codec,
    channels: u8,
    sample_rate: u16,
    sequence: u32,
    timestamp_ms: u64,
    payload: Seq<u8>,
)
    ensures
        frame_bytes(source, codec, channels, sample_rate, sequence, timestamp_ms, payload).len()
            == 24 + if payload.len() <= 65535 {
            payload.len()
        } else {
            65535
        },
{
    lemma_header_layout(
        header_for(source, codec, channels, sample_rate, sequence, timestamp_ms, payload),
    );
}

/// Every frame starts with `QDAV`, and its length field, read back, is the
/// payload's length or 65535, whichever is smaller.
pub proof fn lemma_frame_magic_and_length_field(
    source: u8,
    codec: Codec,
    channels: u8,
    sample_rate: u16,
    sequence: u32,
    timestamp_ms: u64,
    payload: Seq<u8>,
)
    ensures
        frame_bytes(source, codec, channels, sample_rate, sequence, timestamp_ms, payload).take(4)
            == magic(),
        le_value(
            frame_bytes(
                source,
                codec,
                channels,
                sample_rate,
                sequence,
                timestamp_ms,
                payload,
            ).subrange(10, 12),
        ) == if payload.len() <= 65535 {
            payload.len()
        } else {
            65535
        },
{
    let h = header_for(source, codec, channels, sample_rate, sequence, timestamp_ms, payload);
    lemma_header_layout(h);
    lemma_u16_le_value(h.payload_len);
    let head = header_bytes(h);
    let frame = frame_bytes(source, codec, channels, sample_rate, sequence, timestamp_ms, payload);
    assert(frame.take(4) =~= head.take(4));
    assert(frame.subrange(10, 12) =~= head.subrange(10, 12));
}

/// Reading the header of an encoded frame recovers the source, codec, channel
/// count, sample rate, sequence number and timestamp that were encoded, and
/// the number of payload bytes that the frame carries.
pub proof fn lemma_frame_round_trip(
    source: u8,
    codec: Codec,
    channels: u8,
    sample_rate: u16,
    sequence: u32,
    timestamp_ms: u64,
    payload: Seq<u8>,
)
    ensures
        parse_header(
            frame_bytes(source, codec, channels, sample_rate, sequence, timestamp_ms, payload),
        ) == Ok::<FrameHeader, HeaderError>(
            FrameHeader {
                source,
                codec,
                channels,
                sample_rate,
                payload_len: (if payload.len() <= 65535 {
                    payload.len()
                } else {
                    65535
                }) as u16,
                sequence,
                timestamp_ms,
            },
        ),
{
    lemma_header_round_trip(
        header_for(source, codec, channels, sample_rate, sequence, timestamp_ms, payload),
        payload.take(clamped_len(payload.len()) as int),
    );
}

} // verus!
