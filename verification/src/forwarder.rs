//! The forwarder's side of a session: what was fixed at startup, which
//! payload an iteration sends, and the numbering of the frames.

use vstd::prelude::*;
use crate::capture::CaptureConfig;
use crate::codec::Codec;
use crate::packet::{build_packet, clamped_len, encode_frame, frame_bytes};

verus! {

/// Number of zero bytes sent in place of a payload that no encoder produces
/// yet.
pub const PLACEHOLDER_PAYLOAD_LEN: usize = 32;

/// What a session is started with; none of it changes while the session runs.
#[derive(Clone, Copy, Debug, PartialEq, Eq, Structural)]
pub struct ForwardingConfig {
    /// Encoding of the payloads.
    pub codec: Codec,
    /// The source tag that frames carry until a control message changes it.
    pub source: u8,
    /// Number of interleaved channels.
    pub channels: u8,
    /// Samples per second.
    pub sample_rate: u16,
    /// Frame duration in milliseconds.
    pub frame_ms: u16,
    /// The target process, if the operator named one.
    pub process_id: Option<u32>,
    /// Whether the target's descendant processes are captured too.
    pub include_tree: bool,
}

impl ForwardingConfig {
    /// The part of the configuration that the capture engine works with.
    pub open spec fn spec_capture(self) -> CaptureConfig {
        CaptureConfig {
            process_id: self.process_id,
            include_tree: self.include_tree,
            channels: self.channels,
            sample_rate: self.sample_rate,
            frame_ms: self.frame_ms,
        }
    }

    /// The part of the configuration that the capture engine works with.
    pub fn capture(&self) -> (r: CaptureConfig)
        ensures
            r == self.spec_capture(),
    {
        CaptureConfig {
            process_id: self.process_id,
            include_tree: self.include_tree,
            channels: self.channels,
            sample_rate: self.sample_rate,
            frame_ms: self.frame_ms,
        }
    }
}

/// The payload of one iteration.
#[derive(Clone, Debug)]
pub enum PayloadChoice {
    /// These bytes are sent.
    Ready(Vec<u8>),
    /// One frame of the fallback tone is sent.
    Tone,
}

/// The placeholder payload: 32 zero bytes.
pub open spec fn placeholder() -> Seq<u8> {
    Seq::new(32, |i: int| 0u8)
}

/// Whether an iteration with this codec waits for a captured chunk.
pub fn uses_capture(codec: Codec) -> (r: bool)
    ensures
        r == (codec == Codec::Pcm16Le),
{
    match codec {
        Codec::Pcm16Le => true,
        Codec::Opus => false,
    }
}

/// The placeholder payload that keeps the transport alive.
pub fn placeholder_payload() -> (r: Vec<u8>)
    ensures
        r@ == placeholder(),
{
    let mut out: Vec<u8> = Vec::new();
    let mut i: usize = 0;
    while i < PLACEHOLDER_PAYLOAD_LEN
        invariant
            i <= PLACEHOLDER_PAYLOAD_LEN,
            out@.len() == i,
            forall|k: int| 0 <= k < i ==> out@[k] == 0u8,
        decreases PLACEHOLDER_PAYLOAD_LEN - i,
    {
        out.push(0u8);
        i += 1;
    }
    assert(out@ =~= placeholder());
    out
}

impl View for PayloadChoice {
    type V = Option<Seq<u8>>;

    /// The bytes to send, or `None` for the fallback tone.
    open spec fn view(&self) -> Option<Seq<u8>> {
        match self {
            PayloadChoice::Ready(bytes) => Some(bytes@),
            PayloadChoice::Tone => None,
        }
    }
}

/// The payload of an iteration, `None` standing for the fallback tone.
///
/// With PCM, a captured chunk is sent as it is, and the tone where the
/// capture queue gave none. With Opus the placeholder is sent, whatever the
/// capture queue gave.
pub open spec fn payload_for(codec: Codec, received: Option<Seq<u8>>) -> Option<Seq<u8>> {
    match codec {
        Codec::Pcm16Le => received,
        Codec::Opus => Some(placeholder()),
    }
}

/// Chooses the payload of one iteration. `received` is what the capture queue
/// gave: a chunk, or `None` where it has no producer left and is empty.
pub fn select_payload(codec: Codec, received: Option<Vec<u8>>) -> (r: PayloadChoice)
    ensures
        r@ == payload_for(
            codec,
            match received {
                Some(chunk) => Some(chunk@),
                None => None,
            },
        ),
{
    match codec {
        Codec::Pcm16Le => match received {
            Some(chunk) => PayloadChoice::Ready(chunk),
            None => PayloadChoice::Tone,
        },
        Codec::Opus => PayloadChoice::Ready(placeholder_payload()),
    }
}

/// The sequence number that follows `sequence`: one more, and zero after the
/// largest.
pub open spec fn successor(sequence: u32) -> u32 {
    if sequence == u32::MAX {
        0
    } else {
        (sequence + 1) as u32
    }
}

/// The sequence number of the frame sent `n` frames after the one numbered
/// `start`.
pub open spec fn sequence_after(start: u32, n: nat) -> u32 {
    ((start + n) % 0x1_0000_0000) as u32
}

/// The numbering of outgoing frames in a session.
#[derive(Clone, Copy, Debug, PartialEq, Eq, Structural)]
pub struct Forwarder {
    /// Encoding of the payloads.
    pub codec: Codec,
    /// Number of interleaved channels.
    pub channels: u8,
    /// Samples per second.
    pub sample_rate: u16,
    /// The sequence number of the next frame.
    pub sequence: u32,
}

impl Forwarder {
    /// The forwarder at the start of a session: the first frame is numbered 0.
    pub fn new(config: &ForwardingConfig) -> (r: Forwarder)
        ensures
            r.codec == config.codec,
            r.channels == config.channels,
            r.sample_rate == config.sample_rate,
            r.sequence == 0,
    {
        Forwarder {
            codec: config.codec,
            channels: config.channels,
            sample_rate: config.sample_rate,
            sequence: 0,
        }
    }

    /// Moves on to the next sequence number.
    pub fn advance(&mut self)
        ensures
            final(self).sequence == successor(old(self).sequence),
            final(self).codec == old(self).codec,
            final(self).channels == old(self).channels,
            final(self).sample_rate == old(self).sample_rate,
    {
        self.sequence = self.sequence.wrapping_add(1);
    }

    /// Frames `payload` under the current sequence number with the given send
    /// time, and moves on to the next number.
    pub fn next_frame(&mut self, source: u8, timestamp_ms: u64, payload: &[u8]) -> (out: Vec<u8>)
        ensures
            out@ == frame_bytes(
                source,
                old(self).codec,
                old(self).channels,
                old(self).sample_rate,
                old(self).sequence,
                timestamp_ms,
                payload@,
            ),
            final(self).sequence == successor(old(self).sequence),
            final(self).codec == old(self).codec,
            final(self).channels == old(self).channels,
            final(self).sample_rate == old(self).sample_rate,
    {
        let out = encode_frame(
            source,
            self.codec,
            self.channels,
            self.sample_rate,
            self.sequence,
            timestamp_ms,
            payload,
        );
        self.advance();
        out
    }

    /// Frames `payload` under the current sequence number, stamped with the
    /// time of the call, and moves on to the next number.
    pub fn next_packet(&mut self, source: u8, payload: &[u8]) -> (out: Vec<u8>)
        ensures
            exists|timestamp_ms: u64|
                out@ == #[trigger] frame_bytes(
                    source,
                    old(self).codec,
                    old(self).channels,
                    old(self).sample_rate,
                    old(self).sequence,
                    timestamp_ms,
                    payload@,
                ),
            out@.len() == 24 + clamped_len(payload@.len()),
            final(self).sequence == successor(old(self).sequence),
            final(self).codec == old(self).codec,
            final(self).channels == old(self).channels,
            final(self).sample_rate == old(self).sample_rate,
    {
        let out = build_packet(
            source,
            self.codec,
            self.channels,
            self.sample_rate,
            self.sequence,
            payload,
        );
        self.advance();
        out
    }
}

/// Each frame's number is its predecessor's plus one, modulo 2^32: the
/// numbers of consecutive frames leave no gap and never stand still.
pub proof fn lemma_sequence_steps_by_one(start: u32, n: nat)
    ensures
        sequence_after(start, 0) == start,
        sequence_after(start, n + 1) == successor(sequence_after(start, n)),
        sequence_after(start, n + 1) == (sequence_after(start, n) + 1) % 0x1_0000_0000,
        sequence_after(start, n + 1) != sequence_after(start, n),
{
}

/// Fewer than 2^32 frames apart, two frames never share a number.
pub proof fn lemma_sequence_is_distinct(start: u32, i: nat, j: nat)
    requires
        i < j,
        j - i < 0x1_0000_0000,
    ensures
        sequence_after(start, i) != sequence_after(start, j),
{
    let a = start + i;
    let b = start + j;
    if sequence_after(start, i) == sequence_after(start, j) {
        assert(a % 0x1_0000_0000 == b % 0x1_0000_0000);
        assert(a == 0x1_0000_0000 * (a / 0x1_0000_0000) + a % 0x1_0000_0000);
        assert(b == 0x1_0000_0000 * (b / 0x1_0000_0000) + b % 0x1_0000_0000);
        assert(false);
    }
}

} // verus!
