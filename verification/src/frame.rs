//! The audio channel's wire format: samples one after another, four
//! little-endian bytes each, with no header and no sequence number.
//!
//! A sample is carried as the 32 bits of its single-precision value.

use vstd::prelude::*;
use crate::endian::{
    le_bytes, le_value, lemma_bytes_of_value, lemma_le_bytes_len, lemma_le_value_bound,
    lemma_radix_pow_words, lemma_value_of_bytes, read_le, write_le,
};

verus! {

/// Bytes per sample on the wire.
pub const SAMPLE_BYTES: usize = 4;

/// The bit pattern of silence, the value `0.0`.
pub const SILENCE: u32 = 0;

/// The bytes of a frame: byte `k` is byte `k % 4` of sample `k / 4`.
pub open spec fn frame_bytes(samples: Seq<u32>) -> Seq<u8> {
    Seq::new(4 * samples.len(), |k: int| le_bytes(samples[k / 4] as nat, 4)[k % 4])
}

/// The samples of a payload: one for each whole group of four bytes; a
/// shorter group at the end is dropped.
pub open spec fn frame_samples(bytes: Seq<u8>) -> Seq<u32> {
    Seq::new(
        (bytes.len() / 4) as nat,
        |i: int| le_value(bytes.subrange(4 * i, 4 * i + 4)) as u32,
    )
}

/// Serialises samples for the audio channel.
pub fn encode_frame(samples: &[u32]) -> (bytes: Vec<u8>)
    ensures
        bytes@ == frame_bytes(samples@),
{
    let mut out: Vec<u8> = Vec::new();
    let mut i: usize = 0;
    while i < samples.len()
        invariant
            i <= samples@.len(),
            out@ == frame_bytes(samples@.take(i as int)),
        decreases samples@.len() - i,
    {
        let mut word = write_le(samples[i] as u128, SAMPLE_BYTES);
        proof {
            lemma_le_bytes_len(samples@[i as int] as nat, 4);
        }
        out.append(&mut word);
        i += 1;
    }
    out
}

/// Reads the samples of one audio payload.
pub fn decode_frame(bytes: &[u8]) -> (samples: Vec<u32>)
    ensures
        samples@ == frame_samples(bytes@),
{
    let count: usize = bytes.len() / SAMPLE_BYTES;
    let mut out: Vec<u32> = Vec::new();
    let mut i: usize = 0;
    while i < count
        invariant
            bytes@.len() <= usize::MAX,
            count == bytes@.len() / 4,
            i <= count,
            out@.len() == i,
            forall|j: int| 0 <= j < i ==> out@[j] == #[trigger] frame_samples(bytes@)[j],
        decreases count - i,
    {
        let word = vstd::slice::slice_subrange(bytes, 4 * i, 4 * i + 4);
        let value = read_le(word);
        proof {
            lemma_le_value_bound(word@);
            lemma_radix_pow_words();
        }
        out.push(value as u32);
        i += 1;
    }
    out
}

/// A frame has four bytes for each sample.
pub proof fn lemma_frame_bytes_len(samples: Seq<u32>)
    ensures
        frame_bytes(samples).len() == 4 * samples.len(),
{
}

/// What was serialised is read back unchanged, whatever incomplete group of
/// bytes follows it.
pub proof fn lemma_frame_round_trip(samples: Seq<u32>, residue: Seq<u8>)
    requires
        residue.len() < 4,
    ensures
        frame_samples(frame_bytes(samples) + residue) == samples,
{
    let bytes = frame_bytes(samples) + residue;
    assert forall|i: int| 0 <= i < samples.len() implies frame_samples(bytes)[i] == samples[i] by {
        let word = bytes.subrange(4 * i, 4 * i + 4);
        let digits = le_bytes(samples[i] as nat, 4);
        lemma_le_bytes_len(samples[i] as nat, 4);
        assert(word =~= digits);
        lemma_radix_pow_words();
        lemma_value_of_bytes(samples[i] as nat, 4);
    }
}

/// A payload of whole samples is serialised back to itself.
pub proof fn lemma_frame_bytes_of_samples(bytes: Seq<u8>)
    requires
        bytes.len() % 4 == 0,
    ensures
        frame_bytes(frame_samples(bytes)) == bytes,
{
    let samples = frame_samples(bytes);
    assert forall|k: int| 0 <= k < bytes.len() implies frame_bytes(samples)[k] == bytes[k] by {
        let i = k / 4;
        let word = bytes.subrange(4 * i, 4 * i + 4);
        lemma_le_value_bound(word);
        lemma_radix_pow_words();
        lemma_bytes_of_value(word);
    }
}

} // verus!
