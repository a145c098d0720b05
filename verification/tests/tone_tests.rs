use audio_forwarder::tone::{
    frames_per_packet, generate_pcm, interleave_samples, tone_payload_len, Waveform,
};

struct Ramp {
    next: i16,
}

impl Waveform for Ramp {
    fn next_sample(&mut self, _sample_rate: u16) -> i16 {
        let sample = self.next;
        self.next = self.next.wrapping_add(1);
        sample
    }
}

#[test]
fn frames_per_packet_is_the_floor_of_rate_times_duration() {
    assert_eq!(frames_per_packet(48_000, 20), 960);
    assert_eq!(frames_per_packet(48_000, 10), 480);
    assert_eq!(frames_per_packet(44_100, 20), 882);
    assert_eq!(frames_per_packet(44_100, 1), 44);
    assert_eq!(frames_per_packet(999, 1), 0);
    assert_eq!(frames_per_packet(0, 20), 0);
    assert_eq!(frames_per_packet(48_000, 0), 0);
    assert_eq!(frames_per_packet(u16::MAX, u16::MAX), 4_294_836);
}

#[test]
fn tone_frame_of_stereo_48k_20ms() {
    // 960 sample periods, two channels, two bytes each.
    assert_eq!(tone_payload_len(2, 48_000, 20), 3840);
    let samples = vec![0i16; frames_per_packet(48_000, 20)];
    assert_eq!(interleave_samples(&samples, 2).len(), 3840);
}

#[test]
fn tone_frame_of_480_sample_periods_in_stereo_is_1920_bytes() {
    assert_eq!(frames_per_packet(48_000, 10), 480);
    assert_eq!(tone_payload_len(2, 48_000, 10), 1920);
    let samples = vec![0i16; 480];
    assert_eq!(interleave_samples(&samples, 2).len(), 1920);
}

#[test]
fn tone_payload_len_matches_the_formula() {
    for (channels, rate, ms) in [
        (1u8, 8_000u16, 20u16),
        (2, 44_100, 20),
        (6, 48_000, 5),
        (0, 48_000, 20),
        (255, u16::MAX, u16::MAX),
    ] {
        let expected = channels as usize * 2 * (rate as usize * ms as usize / 1000);
        assert_eq!(tone_payload_len(channels, rate, ms), expected);
        let samples = vec![0i16; frames_per_packet(rate, ms).min(4096)];
        assert_eq!(
            interleave_samples(&samples, channels).len(),
            channels as usize * 2 * samples.len()
        );
    }
}

#[test]
fn interleave_samples_repeats_each_sample_on_every_channel() {
    let pcm = interleave_samples(&[1, -2, 0x1234], 2);
    assert_eq!(
        pcm,
        vec![1, 0, 1, 0, 0xFE, 0xFF, 0xFE, 0xFF, 0x34, 0x12, 0x34, 0x12]
    );
}

#[test]
fn interleave_samples_writes_twos_complement() {
    assert_eq!(interleave_samples(&[i16::MIN], 1), vec![0x00, 0x80]);
    assert_eq!(interleave_samples(&[i16::MAX], 1), vec![0xFF, 0x7F]);
    assert_eq!(interleave_samples(&[-1], 1), vec![0xFF, 0xFF]);
    assert_eq!(interleave_samples(&[6553], 1), 6553i16.to_le_bytes().to_vec());
}

#[test]
fn interleave_samples_with_no_channel_or_no_sample_is_empty() {
    assert!(interleave_samples(&[1, 2, 3], 0).is_empty());
    assert!(interleave_samples(&[], 2).is_empty());
}

#[test]
fn generate_pcm_draws_one_sample_per_sample_period() {
    let mut wave = Ramp { next: -1 };
    // 3 sample periods at 3000 Hz and 1 ms.
    let pcm = generate_pcm(2, 3000, 1, &mut wave);
    assert_eq!(
        pcm,
        vec![0xFF, 0xFF, 0xFF, 0xFF, 0, 0, 0, 0, 1, 0, 1, 0]
    );
    assert_eq!(wave.next, 2);
}

#[test]
fn generate_pcm_has_the_same_length_on_every_call() {
    let mut wave = Ramp { next: 0 };
    for _ in 0..5 {
        assert_eq!(generate_pcm(2, 48_000, 20, &mut wave).len(), 3840);
    }
    assert_eq!(wave.next, 4800);
    assert_eq!(generate_pcm(1, 44_100, 20, &mut wave).len(), 1764);
    assert_eq!(generate_pcm(2, 48_000, 10, &mut wave).len(), 1920);
    assert_eq!(generate_pcm(0, 48_000, 20, &mut wave).len(), 0);
    assert_eq!(generate_pcm(2, 999, 1, &mut wave).len(), 0);
}

#[test]
fn generate_pcm_carries_the_wave_over_frames() {
    let mut wave = Ramp { next: 10 };
    let first = generate_pcm(1, 2000, 1, &mut wave);
    let second = generate_pcm(1, 2000, 1, &mut wave);
    assert_eq!(first, vec![10, 0, 11, 0]);
    assert_eq!(second, vec![12, 0, 13, 0]);
}
