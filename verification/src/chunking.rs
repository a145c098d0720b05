//! Cutting the captured byte stream into chunks of one frame each.

use vstd::prelude::*;
use std::collections::VecDeque;

verus! {

/// Sample periods in one captured chunk: those of one frame, and at least one.
pub open spec fn chunk_frames(sample_rate: u16, frame_ms: u16) -> nat {
    let whole = (sample_rate as nat * frame_ms as nat) / 1000;
    if whole < 1 {
        1
    } else {
        whole
    }
}

/// Bytes in one captured chunk: samples per frame, times channels, times the
/// two bytes of a sample.
pub open spec fn chunk_len(channels: u8, sample_rate: u16, frame_ms: u16) -> nat {
    chunk_frames(sample_rate, frame_ms) * channels as nat * 2
}

/// The number of bytes in one captured chunk.
pub fn chunk_bytes(channels: u8, sample_rate: u16, frame_ms: u16) -> (n: usize)
    ensures
        n == chunk_len(channels, sample_rate, frame_ms),
{
    assert(sample_rate * frame_ms <= 0xfffe_0001) by (nonlinear_arith)
        requires
            0 <= sample_rate <= 0xffff,
            0 <= frame_ms <= 0xffff,
    ;
    let whole: u32 = (sample_rate as u32 * frame_ms as u32) / 1000;
    let frames: u32 = if whole < 1 {
        1
    } else {
        whole
    };
    let block_align: u32 = channels as u32 * 2;
    assert(frames * block_align <= 4_294_836 * 510) by (nonlinear_arith)
        requires
            0 <= frames <= 4_294_836,
            0 <= block_align <= 510,
    ;
    assert(chunk_frames(sample_rate, frame_ms) * channels as nat * 2 == frames * block_align)
        by (nonlinear_arith)
        requires
            frames == chunk_frames(sample_rate, frame_ms),
            block_align == channels * 2,
    ;
    (frames * block_align) as usize
}

/// The chunks that a byte stream is cut into: runs of `size` bytes from the
/// front, for as long as that many bytes are left. A size of zero cuts none.
pub open spec fn chunks_of(bytes: Seq<u8>, size: nat) -> Seq<Seq<u8>>
    decreases bytes.len(),
{
    if size == 0 || bytes.len() < size {
        Seq::empty()
    } else {
        seq![bytes.take(size as int)] + chunks_of(bytes.skip(size as int), size)
    }
}

/// The bytes that stay behind once every full chunk is cut off.
pub open spec fn leftover(bytes: Seq<u8>, size: nat) -> Seq<u8>
    decreases bytes.len(),
{
    if size == 0 || bytes.len() < size {
        bytes
    } else {
        leftover(bytes.skip(size as int), size)
    }
}

/// The bytes of chunks laid end to end, in their order.
pub open spec fn joined(chunks: Seq<Seq<u8>>) -> Seq<u8>
    decreases chunks.len(),
{
    if chunks.len() == 0 {
        Seq::empty()
    } else {
        chunks[0] + joined(chunks.drop_first())
    }
}

/// Takes the next chunk off the front of the byte queue.
///
/// While the queue holds at least `chunk_bytes` bytes, the first `chunk_bytes`
/// of them leave the queue and come back as the chunk, in their order; the
/// rest stay, in their order. A queue that holds less is left as it is.
pub fn next_chunk(queue: &mut VecDeque<u8>, chunk_bytes: usize) -> (r: Option<Vec<u8>>)
    ensures
        old(queue)@.len() >= chunk_bytes ==> r.is_some() && r.unwrap()@ == old(queue)@.take(
            chunk_bytes as int,
        ) && final(queue)@ == old(queue)@.skip(chunk_bytes as int),
        old(queue)@.len() < chunk_bytes ==> r.is_none() && final(queue)@ == old(queue)@,
        r.is_some() ==> r.unwrap()@ + final(queue)@ == old(queue)@,
        chunk_bytes > 0 && r.is_some() ==> chunks_of(old(queue)@, chunk_bytes as nat) == seq![
            r.unwrap()@,
        ] + chunks_of(final(queue)@, chunk_bytes as nat),
        chunk_bytes > 0 && r.is_none() ==> chunks_of(old(queue)@, chunk_bytes as nat).len() == 0,
{
    if queue.len() < chunk_bytes {
        return None;
    }
    let mut chunk: Vec<u8> = Vec::new();
    let mut i: usize = 0;
    assert(queue@.skip(0) =~= queue@);
    assert(chunk@ =~= old(queue)@.take(0));
    while i < chunk_bytes
        invariant
            i <= chunk_bytes,
            chunk_bytes <= old(queue)@.len(),
            chunk@ == old(queue)@.take(i as int),
            queue@ == old(queue)@.skip(i as int),
        decreases chunk_bytes - i,
    {
        match queue.pop_front() {
            Some(byte) => {
                chunk.push(byte);
            },
            None => {},
        }
        i += 1;
        assert(chunk@ =~= old(queue)@.take(i as int));
        assert(queue@ =~= old(queue)@.skip(i as int));
    }
    assert(chunk@ + queue@ =~= old(queue)@);
    Some(chunk)
}

/// Joining two runs of chunks joins their bytes.
pub proof fn lemma_joined_concat(a: Seq<Seq<u8>>, b: Seq<Seq<u8>>)
    ensures
        joined(a + b) == joined(a) + joined(b),
    decreases a.len(),
{
    if a.len() == 0 {
        assert(a + b =~= b);
        assert(joined(a) + joined(b) =~= joined(b));
    } else {
        lemma_joined_concat(a.drop_first(), b);
        assert((a + b).drop_first() =~= a.drop_first() + b);
        assert((a + b)[0] == a[0]);
        assert(joined(a + b) =~= joined(a) + joined(b));
    }
}

/// Cutting loses, repeats and reorders nothing: the chunks laid end to end,
/// followed by what stays behind, are the stream. Every chunk has the full
/// size, and less than one chunk stays behind.
pub proof fn lemma_chunks_rejoin(bytes: Seq<u8>, size: nat)
    ensures
        joined(chunks_of(bytes, size)) + leftover(bytes, size) == bytes,
        joined(chunks_of(bytes, size)).len() == chunks_of(bytes, size).len() * size,
        joined(chunks_of(bytes, size)) == bytes.take((chunks_of(bytes, size).len() * size) as int),
        forall|i: int|
            0 <= i < chunks_of(bytes, size).len() ==> (#[trigger] chunks_of(bytes, size)[i]).len()
                == size,
        size > 0 ==> leftover(bytes, size).len() < size,
    decreases bytes.len(),
{
    if size == 0 || bytes.len() < size {
        assert(joined(chunks_of(bytes, size)) + leftover(bytes, size) =~= bytes);
        assert(chunks_of(bytes, size).len() * size == 0) by (nonlinear_arith)
            requires
                chunks_of(bytes, size).len() == 0,
        ;
        assert(joined(chunks_of(bytes, size)) =~= bytes.take(0));
    } else {
        let head = bytes.take(size as int);
        let rest = bytes.skip(size as int);
        let tail = chunks_of(rest, size);
        lemma_chunks_rejoin(rest, size);
        let all = chunks_of(bytes, size);
        assert(all == seq![head] + tail);
        assert(all[0] == head);
        assert(all.drop_first() =~= tail);
        assert(joined(all) == head + joined(tail));
        assert(head + joined(tail) + leftover(rest, size) =~= head + (joined(tail) + leftover(
            rest,
            size,
        )));
        assert(head + rest =~= bytes);
        assert((tail.len() + 1) * size == tail.len() * size + size) by (nonlinear_arith);
        assert forall|i: int| 0 <= i < all.len() implies (#[trigger] all[i]).len() == size by {
            if i > 0 {
                assert(all[i] == tail[i - 1]);
            }
        }
        assert(joined(all) =~= bytes.take((all.len() * size) as int)) by {
            assert(joined(tail) == rest.take((tail.len() * size) as int));
            assert(all.len() * size == size + tail.len() * size);
        }
    }
}

/// Cutting after every read gives the chunks of the whole stream: the chunks
/// cut from a queue, followed by those cut from what stayed behind with the
/// next read appended, are the chunks of queue and read together, and the
/// same bytes stay behind.
pub proof fn lemma_chunks_across_reads(queue: Seq<u8>, read: Seq<u8>, size: nat)
    requires
        size > 0,
    ensures
        chunks_of(queue + read, size) == chunks_of(queue, size) + chunks_of(
            leftover(queue, size) + read,
            size,
        ),
        leftover(queue + read, size) == leftover(leftover(queue, size) + read, size),
        joined(chunks_of(queue + read, size)) == joined(chunks_of(queue, size)) + joined(
            chunks_of(leftover(queue, size) + read, size),
        ),
    decreases queue.len(),
{
    lemma_joined_concat(chunks_of(queue, size), chunks_of(leftover(queue, size) + read, size));
    if queue.len() < size {
        assert(chunks_of(queue, size) + chunks_of(queue + read, size) =~= chunks_of(
            queue + read,
            size,
        ));
    } else {
        let rest = queue.skip(size as int);
        lemma_chunks_across_reads(rest, read, size);
        assert((queue + read).take(size as int) =~= queue.take(size as int));
        assert((queue + read).skip(size as int) =~= rest + read);
        assert(seq![queue.take(size as int)] + (chunks_of(rest, size) + chunks_of(
            leftover(rest, size) + read,
            size,
        )) =~= (seq![queue.take(size as int)] + chunks_of(rest, size)) + chunks_of(
            leftover(rest, size) + read,
            size,
        ));
    }
}

} // verus!
