//! The fallback tone generator: how many samples a frame holds, and how mono
//! samples become interleaved 16-bit little-endian PCM.
//!
//! The generator draws one sample per sample period from a [`Waveform`],
//! which the caller computes in floating point; this module fixes the size
//! of a tone frame and its byte layout.

use vstd::prelude::*;
use crate::packet::u16_le;

verus! {

/// Sample periods in one frame: `floor(sample_rate * frame_ms / 1000)`.
pub open spec fn frame_samples(sample_rate: u16, frame_ms: u16) -> nat {
    (sample_rate as nat * frame_ms as nat) / 1000
}

/// Bytes in one tone frame: every sample period holds one 16-bit sample per
/// channel.
pub open spec fn tone_frame_len(channels: u8, sample_rate: u16, frame_ms: u16) -> nat {
    channels as nat * 2 * frame_samples(sample_rate, frame_ms)
}

/// A signed 16-bit sample in two's complement, least significant byte first.
pub open spec fn i16_le(v: i16) -> Seq<u8> {
    if v < 0 {
        u16_le((v + 0x1_0000) as u16)
    } else {
        u16_le(v as u16)
    }
}

/// One sample period: the sample, once for each of `channels` channels.
pub open spec fn sample_block(v: i16, channels: nat) -> Seq<u8>
    decreases channels,
{
    if channels == 0 {
        Seq::empty()
    } else {
        sample_block(v, (channels - 1) as nat) + i16_le(v)
    }
}

/// The PCM bytes of mono `samples` played on `channels` channels: the sample
/// periods in order, each holding its sample once per channel.
pub open spec fn interleaved(samples: Seq<i16>, channels: nat) -> Seq<u8>
    decreases samples.len(),
{
    if samples.len() == 0 {
        Seq::empty()
    } else {
        interleaved(samples.drop_last(), channels) + sample_block(samples.last(), channels)
    }
}

/// The product of a sample rate and a frame duration fits in 32 bits.
proof fn lemma_rate_times_duration(sample_rate: u16, frame_ms: u16)
    ensures
        sample_rate * frame_ms <= 0xfffe_0001,
        frame_samples(sample_rate, frame_ms) <= 4_294_836,
{
    assert(sample_rate * frame_ms <= 0xfffe_0001) by (nonlinear_arith)
        requires
            0 <= sample_rate <= 0xffff,
            0 <= frame_ms <= 0xffff,
    ;
}

/// The number of sample periods in one frame.
pub fn frames_per_packet(sample_rate: u16, frame_ms: u16) -> (n: usize)
    ensures
        n == frame_samples(sample_rate, frame_ms),
{
    proof {
        lemma_rate_times_duration(sample_rate, frame_ms);
    }
    let product: u32 = sample_rate as u32 * frame_ms as u32;
    (product / 1000) as usize
}

/// The number of bytes in one tone frame.
pub fn tone_payload_len(channels: u8, sample_rate: u16, frame_ms: u16) -> (n: usize)
    ensures
        n == tone_frame_len(channels, sample_rate, frame_ms),
{
    proof {
        lemma_rate_times_duration(sample_rate, frame_ms);
    }
    let frames: u32 = (sample_rate as u32 * frame_ms as u32) / 1000;
    let per_period: u32 = channels as u32 * 2;
    assert(per_period * frames <= 510 * 4_294_836) by (nonlinear_arith)
        requires
            0 <= per_period <= 510,
            0 <= frames <= 4_294_836,
    ;
    assert(channels as nat * 2 * frame_samples(sample_rate, frame_ms) == per_period * frames)
        by (nonlinear_arith)
        requires
            per_period == channels * 2,
            frames == frame_samples(sample_rate, frame_ms),
    ;
    (per_period * frames) as usize
}

/// Lays mono samples out as interleaved 16-bit little-endian PCM, each sample
/// repeated on every channel.
pub fn interleave_samples(samples: &[i16], channels: u8) -> (out: Vec<u8>)
    ensures
        out@ == interleaved(samples@, channels as nat),
        out@.len() == channels as nat * 2 * samples@.len(),
{
    let mut out: Vec<u8> = Vec::new();
    let mut i: usize = 0;
    assert(samples@.take(0) =~= Seq::<i16>::empty());
    while i < samples.len()
        invariant
            i <= samples.len(),
            out@ == interleaved(samples@.take(i as int), channels as nat),
        decreases samples.len() - i,
    {
        let v: i16 = samples[i];
        let bits: u16 = if v < 0 {
            (v as i32 + 0x1_0000) as u16
        } else {
            v as u16
        };
        let low: u8 = (bits % 256) as u8;
        let high: u8 = (bits / 256) as u8;
        assert(seq![low, high] =~= i16_le(v));
        let ghost before = out@;
        let mut c: u8 = 0;
        assert(out@ =~= before + sample_block(v, 0));
        while c < channels
            invariant
                c <= channels,
                seq![low, high] == i16_le(v),
                out@ == before + sample_block(v, c as nat),
            decreases channels - c,
        {
            out.push(low);
            out.push(high);
            c += 1;
            assert(out@ =~= before + (sample_block(v, (c - 1) as nat) + i16_le(v)));
        }
        proof {
            let next = samples@.take(i + 1);
            assert(next.drop_last() =~= samples@.take(i as int));
            assert(next.last() == v);
        }
        i += 1;
    }
    proof {
        assert(samples@.take(samples@.len() as int) =~= samples@);
        lemma_interleaved_len(samples@, channels as nat);
    }
    out
}

/// A source of mono samples, drawn one per sample period. It keeps its own
/// state from one frame to the next.
pub trait Waveform {
    /// The next sample of the wave, played at `sample_rate` samples per
    /// second.
    fn next_sample(&mut self, sample_rate: u16) -> i16;
}

/// Generates one frame of PCM from `wave`.
///
/// One sample is drawn for each of the frame's sample periods, in order, and
/// laid out once per channel. The frame is
/// `channels * 2 * floor(sample_rate * frame_ms / 1000)` bytes long on every
/// call, whatever state the wave is in.
pub fn generate_pcm<W: Waveform>(
    channels: u8,
    sample_rate: u16,
    frame_ms: u16,
    wave: &mut W,
) -> (out: Vec<u8>)
    ensures
        out@.len() == channels as nat * 2 * ((sample_rate as nat * frame_ms as nat) / 1000),
        exists|samples: Seq<i16>|
            samples.len() == frame_samples(sample_rate, frame_ms) && out@ == #[trigger] interleaved(
                samples,
                channels as nat,
            ),
{
    let frames: usize = frames_per_packet(sample_rate, frame_ms);
    let mut samples: Vec<i16> = Vec::new();
    let mut i: usize = 0;
    while i < frames
        invariant
            i <= frames,
            samples@.len() == i,
        decreases frames - i,
    {
        let sample: i16 = wave.next_sample(sample_rate);
        samples.push(sample);
        i += 1;
    }
    interleave_samples(samples.as_slice(), channels)
}

/// A sample period takes two bytes per channel.
pub proof fn lemma_sample_block_len(v: i16, channels: nat)
    ensures
        sample_block(v, channels).len() == channels * 2,
    decreases channels,
{
    if channels > 0 {
        lemma_sample_block_len(v, (channels - 1) as nat);
    }
}

/// Interleaved PCM takes two bytes per channel and sample period.
pub proof fn lemma_interleaved_len(samples: Seq<i16>, channels: nat)
    ensures
        interleaved(samples, channels).len() == channels * 2 * samples.len(),
    decreases samples.len(),
{
    if samples.len() > 0 {
        lemma_interleaved_len(samples.drop_last(), channels);
        lemma_sample_block_len(samples.last(), channels);
        assert(channels * 2 * (samples.len() - 1) + channels * 2 == channels * 2 * samples.len())
            by (nonlinear_arith);
    }
}

/// A tone frame built from one sample per sample period is exactly
/// `channels * 2 * floor(sample_rate * frame_ms / 1000)` bytes long, whatever
/// the samples are.
pub proof fn lemma_tone_frame_len(channels: u8, sample_rate: u16, frame_ms: u16, samples: Seq<i16>)
    requires
        samples.len() == frame_samples(sample_rate, frame_ms),
    ensures
        interleaved(samples, channels as nat).len() == channels as nat * 2 * ((sample_rate as nat
            * frame_ms as nat) / 1000),
        interleaved(samples, channels as nat).len() == tone_frame_len(
            channels,
            sample_rate,
            frame_ms,
        ),
{
    lemma_interleaved_len(samples, channels as nat);
}

} // verus!
