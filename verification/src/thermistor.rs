//! Grouping of the sensor board's byte stream into raw 16-bit samples.

use vstd::prelude::*;

verus! {

/// The unsigned 16-bit value of two bytes, most significant byte first.
pub open spec fn sample_value(high: u8, low: u8) -> u16 {
    (high as int * 256 + low as int) as u16
}

/// The samples of a batch: one for each complete pair of bytes, in stream
/// order. A last byte without a partner belongs to no sample.
pub open spec fn raw_samples(batch: Seq<u8>) -> Seq<u16> {
    Seq::new(batch.len() / 2, |i: int| sample_value(batch[2 * i], batch[2 * i + 1]))
}

/// Decodes one batch of stream bytes into its raw samples.
///
/// The stream has no framing, so the batch is read as consecutive big-endian
/// pairs from its first byte on; an unpaired last byte is dropped and is not
/// carried over to the next batch.
pub fn process_ntc_packet(packet: Vec<u8>) -> (samples: Vec<u16>)
    ensures
        samples@ == raw_samples(packet@),
{
    let pairs: usize = packet.len() / 2;
    let mut samples: Vec<u16> = Vec::new();
    let mut i: usize = 0;
    while i < pairs
        invariant
            pairs == packet.len() / 2,
            i <= pairs,
            samples.len() == i,
            forall|k: int| 0 <= k < i ==> samples[k] == sample_value(packet[2 * k], packet[2 * k + 1]),
        decreases pairs - i,
    {
        let high: u8 = packet[2 * i];
        let low: u8 = packet[2 * i + 1];
        let value: u16 = high as u16 * 256 + low as u16;
        samples.push(value);
        i += 1;
    }
    samples
}

/// A batch of `2n + 1` bytes yields exactly `n` samples, the same ones as the
/// batch without its last byte.
pub proof fn lemma_odd_batch_drops_last_byte(batch: Seq<u8>, n: nat)
    requires
        batch.len() == 2 * n + 1,
    ensures
        raw_samples(batch).len() == n,
        raw_samples(batch) == raw_samples(batch.drop_last()),
{
    assert(raw_samples(batch) =~= raw_samples(batch.drop_last()));
}

/// Decoding has no memory: the samples depend on the bytes of the batch
/// alone, so equal batches decode to equal samples.
pub proof fn lemma_decoding_is_repeatable(first: Seq<u8>, second: Seq<u8>)
    requires
        first == second,
    ensures
        raw_samples(first) == raw_samples(second),
{
}

/// Bytes that follow an even number of bytes decode as they would alone: a
/// batch cut at a pair boundary gives the samples of the first part, then
/// those of the second.
pub proof fn lemma_decoding_splits_at_pairs(head: Seq<u8>, tail: Seq<u8>)
    requires
        head.len() % 2 == 0,
    ensures
        raw_samples(head + tail) == raw_samples(head) + raw_samples(tail),
{
    let whole = head + tail;
    let pieces = raw_samples(head) + raw_samples(tail);
    assert(raw_samples(whole).len() == pieces.len());
    assert forall|i: int| 0 <= i < pieces.len() implies raw_samples(whole)[i] == pieces[i] by {
        if i < raw_samples(head).len() {
            assert(whole[2 * i] == head[2 * i]);
            assert(whole[2 * i + 1] == head[2 * i + 1]);
        } else {
            let k = i - raw_samples(head).len();
            assert(whole[2 * i] == tail[2 * k]);
            assert(whole[2 * i + 1] == tail[2 * k + 1]);
        }
    }
    assert(raw_samples(whole) =~= pieces);
}

/// A batch of `2n` bytes yields exactly `n` samples.
pub proof fn lemma_even_batch_uses_every_byte(batch: Seq<u8>, n: nat)
    requires
        batch.len() == 2 * n,
    ensures
        raw_samples(batch).len() == n,
{
}

} // verus!
