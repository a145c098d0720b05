use audio_forwarder::clock::{now_ms, timestamp_from};
use audio_forwarder::codec::Codec;
use audio_forwarder::packet::{
    build_packet, decode_header, encode_frame, FrameHeader, HeaderError, HEADER_SIZE, MAX_PAYLOAD,
};
use std::time::{SystemTime, UNIX_EPOCH};

#[test]
fn encode_frame_writes_every_field_little_endian() {
    let frame = encode_frame(
        7,
        Codec::Pcm16Le,
        2,
        48_000,
        0x0102_0304,
        0x0102_0304_0506_0708,
        &[0xAA, 0xBB, 0xCC],
    );
    let expected: Vec<u8> = vec![
        b'Q', b'D', b'A', b'V', // magic
        1,    // version
        7,    // source
        2,    // codec
        2,    // channels
        0x80, 0xBB, // sample rate
        3, 0, // payload length
        0x04, 0x03, 0x02, 0x01, // sequence
        0x08, 0x07, 0x06, 0x05, 0x04, 0x03, 0x02, 0x01, // timestamp
        0xAA, 0xBB, 0xCC,
    ];
    assert_eq!(frame, expected);
}

#[test]
fn encode_frame_of_empty_payload_is_the_header_alone() {
    let frame = encode_frame(0, Codec::Opus, 0, 0, 0, 0, &[]);
    assert_eq!(frame.len(), HEADER_SIZE);
    assert_eq!(&frame[0..4], b"QDAV");
    assert_eq!(frame[6], 1);
    assert_eq!(&frame[10..12], &[0, 0]);
}

#[test]
fn encode_frame_writes_extreme_values() {
    let frame = encode_frame(255, Codec::Opus, 255, u16::MAX, u32::MAX, u64::MAX, &[9]);
    assert_eq!(frame[5], 255);
    assert_eq!(frame[7], 255);
    assert_eq!(&frame[8..10], &[0xFF, 0xFF]);
    assert_eq!(&frame[10..12], &[1, 0]);
    assert_eq!(&frame[12..16], &[0xFF; 4]);
    assert_eq!(&frame[16..24], &[0xFF; 8]);
    assert_eq!(frame[24], 9);
}

#[test]
fn build_packet_length_is_header_plus_payload() {
    for len in [0usize, 1, 32, 1920, 3840, 65_534, 65_535] {
        let payload = vec![0x5Au8; len];
        let packet = build_packet(1, Codec::Pcm16Le, 2, 48_000, 0, &payload);
        assert_eq!(packet.len(), 24 + len);
    }
}

#[test]
fn build_packet_cuts_a_long_payload_to_65535_bytes() {
    let payload: Vec<u8> = (0..70_000usize).map(|i| (i % 251) as u8).collect();
    let packet = build_packet(1, Codec::Pcm16Le, 2, 48_000, 9, &payload);
    assert_eq!(packet.len(), 24 + 65_535);
    assert_eq!(&packet[10..12], &[0xFF, 0xFF]);
    assert_eq!(&packet[24..], &payload[..MAX_PAYLOAD]);
    let header = decode_header(&packet).unwrap();
    assert_eq!(header.payload_len, 65_535);
}

#[test]
fn build_packet_at_one_byte_over_the_limit() {
    let payload = vec![1u8; 65_536];
    let packet = build_packet(1, Codec::Pcm16Le, 2, 48_000, 9, &payload);
    assert_eq!(packet.len(), 24 + 65_535);
    assert_eq!(decode_header(&packet).unwrap().payload_len, 65_535);
}

#[test]
fn build_packet_starts_with_magic_and_version() {
    let packet = build_packet(3, Codec::Opus, 1, 16_000, 77, &[1, 2, 3, 4]);
    assert_eq!(&packet[0..4], b"QDAV");
    assert_eq!(packet[4], 1);
    assert_eq!(packet[5], 3);
    assert_eq!(packet[6], 1);
    assert_eq!(packet[7], 1);
    assert_eq!(u16::from_le_bytes([packet[8], packet[9]]), 16_000);
    assert_eq!(u16::from_le_bytes([packet[10], packet[11]]), 4);
    assert_eq!(
        u32::from_le_bytes([packet[12], packet[13], packet[14], packet[15]]),
        77
    );
    assert_eq!(&packet[24..], &[1, 2, 3, 4]);
}

#[test]
fn build_packet_stamps_the_send_time() {
    let before = SystemTime::now()
        .duration_since(UNIX_EPOCH)
        .unwrap()
        .as_millis() as u64;
    let packet = build_packet(1, Codec::Pcm16Le, 2, 48_000, 0, &[0; 8]);
    let after = SystemTime::now()
        .duration_since(UNIX_EPOCH)
        .unwrap()
        .as_millis() as u64;
    let mut stamp = [0u8; 8];
    stamp.copy_from_slice(&packet[16..24]);
    let stamp = u64::from_le_bytes(stamp);
    assert!(before <= stamp && stamp <= after);
}

#[test]
fn header_round_trip_recovers_every_field() {
    let payload = vec![7u8; 1920];
    let packet = build_packet(9, Codec::Pcm16Le, 2, 44_100, 0xDEAD_BEEF, &payload);
    let header = decode_header(&packet).unwrap();
    assert_eq!(header.source, 9);
    assert_eq!(header.codec, Codec::Pcm16Le);
    assert_eq!(header.channels, 2);
    assert_eq!(header.sample_rate, 44_100);
    assert_eq!(header.payload_len, 1920);
    assert_eq!(header.sequence, 0xDEAD_BEEF);
    assert!(header.timestamp_ms > 1_600_000_000_000);
}

#[test]
fn header_round_trip_with_given_timestamp() {
    let frame = encode_frame(200, Codec::Opus, 6, 8_000, 1, 1_700_000_000_123, &[0; 32]);
    assert_eq!(
        decode_header(&frame),
        Ok(FrameHeader {
            source: 200,
            codec: Codec::Opus,
            channels: 6,
            sample_rate: 8_000,
            payload_len: 32,
            sequence: 1,
            timestamp_ms: 1_700_000_000_123,
        })
    );
}

#[test]
fn decode_header_rejects_short_input() {
    assert_eq!(decode_header(&[]), Err(HeaderError::TooShort));
    let frame = encode_frame(1, Codec::Opus, 1, 1, 1, 1, &[]);
    assert_eq!(decode_header(&frame[..23]), Err(HeaderError::TooShort));
    assert!(decode_header(&frame[..24]).is_ok());
}

#[test]
fn decode_header_rejects_wrong_magic() {
    let mut frame = encode_frame(1, Codec::Opus, 1, 1, 1, 1, &[]);
    frame[3] = b'X';
    assert_eq!(decode_header(&frame), Err(HeaderError::BadMagic));
    let mut frame = encode_frame(1, Codec::Opus, 1, 1, 1, 1, &[]);
    frame[0] = b'q';
    assert_eq!(decode_header(&frame), Err(HeaderError::BadMagic));
}

#[test]
fn decode_header_rejects_wrong_version() {
    let mut frame = encode_frame(1, Codec::Opus, 1, 1, 1, 1, &[]);
    frame[4] = 2;
    assert_eq!(decode_header(&frame), Err(HeaderError::BadVersion));
}

#[test]
fn decode_header_rejects_unknown_codec() {
    let mut frame = encode_frame(1, Codec::Opus, 1, 1, 1, 1, &[]);
    frame[6] = 0;
    assert_eq!(decode_header(&frame), Err(HeaderError::UnknownCodec));
    frame[6] = 3;
    assert_eq!(decode_header(&frame), Err(HeaderError::UnknownCodec));
}

#[test]
fn decode_header_checks_magic_before_version_and_codec() {
    let mut frame = encode_frame(1, Codec::Opus, 1, 1, 1, 1, &[]);
    frame[0] = 0;
    frame[4] = 9;
    frame[6] = 9;
    assert_eq!(decode_header(&frame), Err(HeaderError::BadMagic));
    frame[0] = b'Q';
    assert_eq!(decode_header(&frame), Err(HeaderError::BadVersion));
}

#[test]
fn now_ms_follows_the_clock() {
    let before = SystemTime::now()
        .duration_since(UNIX_EPOCH)
        .unwrap()
        .as_millis() as u64;
    let stamp = now_ms();
    let after = SystemTime::now()
        .duration_since(UNIX_EPOCH)
        .unwrap()
        .as_millis() as u64;
    assert!(before <= stamp && stamp <= after);
}

#[test]
fn timestamp_from_reduces_to_64_bits() {
    assert_eq!(timestamp_from(None), 0);
    assert_eq!(timestamp_from(Some(0)), 0);
    assert_eq!(timestamp_from(Some(1_700_000_000_123)), 1_700_000_000_123);
    assert_eq!(timestamp_from(Some(u64::MAX as u128)), u64::MAX);
    assert_eq!(timestamp_from(Some(u64::MAX as u128 + 1)), 0);
    assert_eq!(timestamp_from(Some((1u128 << 64) + 5)), 5);
    assert_eq!(timestamp_from(Some(u128::MAX)), u64::MAX);
}
