use audio_forwarder::chunking::{chunk_bytes, next_chunk};
use std::collections::VecDeque;

#[test]
fn chunk_bytes_is_frames_times_channels_times_two() {
    assert_eq!(chunk_bytes(2, 48_000, 20), 3840);
    assert_eq!(chunk_bytes(1, 48_000, 10), 960);
    assert_eq!(chunk_bytes(2, 44_100, 20), 3528);
    assert_eq!(chunk_bytes(0, 48_000, 20), 0);
    assert_eq!(chunk_bytes(255, u16::MAX, u16::MAX), 4_294_836 * 510);
}

#[test]
fn chunk_bytes_holds_at_least_one_sample_period() {
    assert_eq!(chunk_bytes(2, 999, 1), 4);
    assert_eq!(chunk_bytes(2, 0, 20), 4);
    assert_eq!(chunk_bytes(1, 48_000, 0), 2);
    assert_eq!(chunk_bytes(2, 1000, 1), 4);
    assert_eq!(chunk_bytes(2, 2000, 1), 8);
}

#[test]
fn next_chunk_takes_bytes_from_the_front_in_order() {
    let mut queue: VecDeque<u8> = (0u8..10).collect();
    assert_eq!(next_chunk(&mut queue, 4), Some(vec![0, 1, 2, 3]));
    assert_eq!(queue, (4u8..10).collect::<VecDeque<u8>>());
    assert_eq!(next_chunk(&mut queue, 4), Some(vec![4, 5, 6, 7]));
    assert_eq!(next_chunk(&mut queue, 4), None);
    assert_eq!(queue, VecDeque::from(vec![8, 9]));
}

#[test]
fn next_chunk_leaves_a_short_queue_alone() {
    let mut queue: VecDeque<u8> = VecDeque::from(vec![1, 2, 3]);
    assert_eq!(next_chunk(&mut queue, 4), None);
    assert_eq!(queue, VecDeque::from(vec![1, 2, 3]));
    let mut empty: VecDeque<u8> = VecDeque::new();
    assert_eq!(next_chunk(&mut empty, 1), None);
}

#[test]
fn next_chunk_takes_a_queue_of_exactly_one_chunk() {
    let mut queue: VecDeque<u8> = VecDeque::from(vec![9, 8, 7]);
    assert_eq!(next_chunk(&mut queue, 3), Some(vec![9, 8, 7]));
    assert!(queue.is_empty());
}

#[test]
fn next_chunk_of_size_zero_is_always_an_empty_chunk() {
    let mut queue: VecDeque<u8> = VecDeque::from(vec![1]);
    assert_eq!(next_chunk(&mut queue, 0), Some(Vec::new()));
    assert_eq!(queue, VecDeque::from(vec![1]));
    let mut empty: VecDeque<u8> = VecDeque::new();
    assert_eq!(next_chunk(&mut empty, 0), Some(Vec::new()));
}

#[test]
fn chunks_neither_drop_nor_repeat_a_byte() {
    let bytes: Vec<u8> = (0..1000usize).map(|i| (i % 253) as u8).collect();
    let mut queue: VecDeque<u8> = VecDeque::new();
    let mut out: Vec<u8> = Vec::new();
    for piece in bytes.chunks(37) {
        queue.extend(piece.iter().copied());
        while let Some(chunk) = next_chunk(&mut queue, 64) {
            assert_eq!(chunk.len(), 64);
            out.extend_from_slice(&chunk);
        }
    }
    out.extend(queue.iter().copied());
    assert_eq!(out, bytes);
}

#[test]
fn chunks_cut_after_each_read_are_those_of_the_whole_stream() {
    let stream: Vec<u8> = (0..500usize).map(|i| (i % 199) as u8).collect();
    let mut at_once: VecDeque<u8> = stream.iter().copied().collect();
    let mut whole: Vec<Vec<u8>> = Vec::new();
    while let Some(chunk) = next_chunk(&mut at_once, 48) {
        whole.push(chunk);
    }
    let mut queue: VecDeque<u8> = VecDeque::new();
    let mut piecewise: Vec<Vec<u8>> = Vec::new();
    for read in stream.chunks(7) {
        queue.extend(read.iter().copied());
        while let Some(chunk) = next_chunk(&mut queue, 48) {
            piecewise.push(chunk);
        }
    }
    assert_eq!(piecewise, whole);
    assert_eq!(whole.len(), 10);
    assert_eq!(whole.concat(), stream[..480].to_vec());
    assert_eq!(queue, at_once);
    assert_eq!(queue.len(), 20);
}
