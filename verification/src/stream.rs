//! Whole blocks through the bridge: what the network side hands over when a
//! payload arrives, and what the audio callback takes out for one block.
//!
//! On the receiving peer the network side queues the samples of each payload
//! and the callback plays them, with silence where none waits. On the sending
//! peer the callback queues its block and the network side drains the queue
//! into payloads.

use vstd::prelude::*;
use crate::bridge::SampleBridge;
use crate::frame::{decode_frame, encode_frame, frame_bytes, frame_samples, SILENCE};

verus! {

/// How many of `offered` samples a queue of `waiting` samples takes under
/// `bound`: as many as there is room for.
pub open spec fn room_for(waiting: nat, bound: nat, offered: nat) -> nat {
    if waiting >= bound {
        0
    } else if offered <= bound - waiting {
        offered
    } else {
        (bound - waiting) as nat
    }
}

/// The queue after `offered` has been pushed sample by sample: the first
/// samples fill the room that is left and the rest are dropped.
pub open spec fn admitted(waiting: Seq<u32>, bound: nat, offered: Seq<u32>) -> Seq<u32> {
    waiting + offered.take(room_for(waiting.len(), bound, offered.len()) as int)
}

/// A block of `count` samples played from `waiting`: the waiting samples in
/// order, then silence.
pub open spec fn played(waiting: Seq<u32>, count: nat) -> Seq<u32> {
    Seq::new(
        count,
        |i: int|
            if i < waiting.len() {
                waiting[i]
            } else {
                SILENCE
            },
    )
}

/// The smaller of a request and what is there.
pub open spec fn taken(waiting: nat, wanted: nat) -> nat {
    if wanted <= waiting {
        wanted
    } else {
        waiting
    }
}

/// Queues a block of samples in order; those that find the bridge full are
/// dropped.
pub fn push_block(bridge: &mut SampleBridge, samples: &[u32])
    ensures
        final(bridge).bound() == old(bridge).bound(),
        final(bridge)@ == admitted(old(bridge)@, old(bridge).bound(), samples@),
{
    let mut i: usize = 0;
    while i < samples.len()
        invariant
            i <= samples@.len(),
            bridge.bound() == old(bridge).bound(),
            bridge@ == admitted(old(bridge)@, old(bridge).bound(), samples@.take(i as int)),
        decreases samples@.len() - i,
    {
        bridge.push(samples[i]);
        i += 1;
    }
}

/// Queues the samples of an audio payload as it arrives from the network.
pub fn receive_frame(bridge: &mut SampleBridge, payload: &[u8])
    ensures
        final(bridge).bound() == old(bridge).bound(),
        final(bridge)@ == admitted(old(bridge)@, old(bridge).bound(), frame_samples(payload@)),
{
    let samples = decode_frame(payload);
    push_block(bridge, samples.as_slice());
}

/// Takes one block of `count` samples for the audio callback: the oldest
/// waiting samples, and silence for each one that is missing.
pub fn fill_block(bridge: &mut SampleBridge, count: usize) -> (block: Vec<u32>)
    ensures
        final(bridge).bound() == old(bridge).bound(),
        block@ == played(old(bridge)@, count as nat),
        final(bridge)@ == old(bridge)@.skip(taken(old(bridge)@.len(), count as nat) as int),
{
    let mut block: Vec<u32> = Vec::new();
    let mut i: usize = 0;
    while i < count
        invariant
            i <= count,
            bridge.bound() == old(bridge).bound(),
            block@ == played(old(bridge)@, i as nat),
            bridge@ == old(bridge)@.skip(taken(old(bridge)@.len(), i as nat) as int),
        decreases count - i,
    {
        let sample = match bridge.pop() {
            Some(sample) => sample,
            None => SILENCE,
        };
        block.push(sample);
        i += 1;
    }
    block
}

/// Takes up to `limit` waiting samples and serialises them as one audio
/// payload.
pub fn drain_frame(bridge: &mut SampleBridge, limit: usize) -> (payload: Vec<u8>)
    ensures
        final(bridge).bound() == old(bridge).bound(),
        payload@ == frame_bytes(
            old(bridge)@.take(taken(old(bridge)@.len(), limit as nat) as int),
        ),
        final(bridge)@ == old(bridge)@.skip(taken(old(bridge)@.len(), limit as nat) as int),
{
    let mut samples: Vec<u32> = Vec::new();
    let mut i: usize = 0;
    let ghost waiting = bridge@;
    while i < limit && !bridge.is_empty()
        invariant
            i <= limit,
            i <= waiting.len(),
            waiting == old(bridge)@,
            bridge.bound() == old(bridge).bound(),
            samples@ == waiting.take(i as int),
            bridge@ == waiting.skip(i as int),
        decreases limit - i,
    {
        match bridge.pop() {
            Some(sample) => {
                samples.push(sample);
            },
            None => {},
        }
        i += 1;
    }
    encode_frame(samples.as_slice())
}

/// Samples queued while there is room for all of them come out in the order
/// in which they went in, behind those that were waiting.
pub proof fn lemma_first_in_first_out(waiting: Seq<u32>, bound: nat, offered: Seq<u32>)
    requires
        waiting.len() + offered.len() <= bound,
    ensures
        admitted(waiting, bound, offered) == waiting + offered,
        played(admitted(waiting, bound, offered), waiting.len() + offered.len()) == waiting
            + offered,
{
}

/// Whatever is offered, the queue stays within its bound, and nothing that
/// was waiting is displaced: only the excess is dropped.
pub proof fn lemma_overflow_drops_excess(waiting: Seq<u32>, bound: nat, offered: Seq<u32>)
    requires
        waiting.len() <= bound,
    ensures
        admitted(waiting, bound, offered).len() <= bound,
        admitted(waiting, bound, offered).len() == taken(bound, waiting.len() + offered.len()),
        admitted(waiting, bound, offered).take(waiting.len() as int) == waiting,
{
}

/// An audio payload queued into enough room and then drained comes out as
/// the payload of the same samples.
pub proof fn lemma_frame_through_bridge(bound: nat, payload: Seq<u8>)
    requires
        payload.len() / 4 <= bound,
    ensures
        admitted(Seq::<u32>::empty(), bound, frame_samples(payload)) == frame_samples(payload),
{
}

} // verus!
