use audio_forwarder::codec::{Codec, CODEC_ID_OPUS, CODEC_ID_PCM16LE};

#[test]
fn parse_reads_opus_in_any_ascii_case() {
    assert_eq!(Codec::parse("opus"), Codec::Opus);
    assert_eq!(Codec::parse("OPUS"), Codec::Opus);
    assert_eq!(Codec::parse("OpUs"), Codec::Opus);
}

#[test]
fn parse_takes_everything_else_for_pcm() {
    assert_eq!(Codec::parse("pcm16"), Codec::Pcm16Le);
    assert_eq!(Codec::parse("PCM16"), Codec::Pcm16Le);
    assert_eq!(Codec::parse(""), Codec::Pcm16Le);
    assert_eq!(Codec::parse("opus "), Codec::Pcm16Le);
    assert_eq!(Codec::parse(" opus"), Codec::Pcm16Le);
    assert_eq!(Codec::parse("opu"), Codec::Pcm16Le);
    assert_eq!(Codec::parse("opuss"), Codec::Pcm16Le);
    assert_eq!(Codec::parse("0pus"), Codec::Pcm16Le);
    assert_eq!(Codec::parse("mp3"), Codec::Pcm16Le);
}

#[test]
fn parse_does_not_fold_characters_outside_ascii() {
    assert_eq!(Codec::parse("opu\u{17F}"), Codec::Pcm16Le);
    assert_eq!(Codec::parse("\u{FF4F}pus"), Codec::Pcm16Le);
    assert_eq!(Codec::parse("\u{F6}pus"), Codec::Pcm16Le);
}

#[test]
fn codec_ids_are_one_and_two() {
    assert_eq!(Codec::Opus.id(), 1);
    assert_eq!(Codec::Pcm16Le.id(), 2);
    assert_eq!(CODEC_ID_OPUS, 1);
    assert_eq!(CODEC_ID_PCM16LE, 2);
}

#[test]
fn from_id_inverts_id() {
    assert_eq!(Codec::from_id(1), Some(Codec::Opus));
    assert_eq!(Codec::from_id(2), Some(Codec::Pcm16Le));
    assert_eq!(Codec::from_id(0), None);
    assert_eq!(Codec::from_id(3), None);
    assert_eq!(Codec::from_id(255), None);
}
