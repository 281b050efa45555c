//! The receiving peer: samples come in from the network and go out to the
//! host, one block per callback; control payloads are sent straight back.

use vstd::prelude::*;
use crate::bridge::SampleBridge;
use crate::control::{reflect, reflected};
use crate::frame::frame_samples;
use crate::stream::{admitted, fill_block, played, receive_frame, taken};

verus! {

/// The receiving side of a connection.
pub struct Receiver {
    messages: SampleBridge,
}

impl Receiver {
    /// The samples received and not yet played, the oldest first.
    pub closed spec fn waiting(&self) -> Seq<u32> {
        self.messages@
    }

    /// The most samples that wait at a time.
    pub closed spec fn bound(&self) -> nat {
        self.messages.bound()
    }

    /// A receiver that buffers up to `capacity` samples.
    pub fn new(capacity: usize) -> (receiver: Receiver)
        ensures
            receiver.waiting() == Seq::<u32>::empty(),
            receiver.bound() == capacity,
    {
        Receiver { messages: SampleBridge::new(capacity) }
    }

    /// Handles a payload of the audio channel: its samples are queued, as
    /// far as there is room.
    pub fn on_audio(&mut self, payload: &[u8])
        ensures
            final(self).bound() == old(self).bound(),
            final(self).waiting() == admitted(
                old(self).waiting(),
                old(self).bound(),
                frame_samples(payload@),
            ),
    {
        receive_frame(&mut self.messages, payload);
    }

    /// Handles a payload of the control channel: the reply is the payload.
    pub fn on_control(&self, payload: &[u8]) -> (reply: Vec<u8>)
        ensures
            reply@ == reflected(payload@),
    {
        reflect(payload)
    }

    /// The audio callback: one block of `count` samples for the host, with
    /// silence where the network has not delivered.
    pub fn process(&mut self, count: usize) -> (block: Vec<u32>)
        ensures
            final(self).bound() == old(self).bound(),
            block@ == played(old(self).waiting(), count as nat),
            final(self).waiting() == old(self).waiting().skip(
                taken(old(self).waiting().len(), count as nat) as int,
            ),
    {
        fill_block(&mut self.messages, count)
    }

    /// How many samples wait; for display only.
    pub fn buffered(&self) -> (n: usize)
        ensures
            n == self.waiting().len(),
            n <= self.bound(),
    {
        self.messages.len()
    }

    /// Discards the samples that wait.
    pub fn clear(&mut self)
        ensures
            final(self).bound() == old(self).bound(),
            final(self).waiting() == Seq::<u32>::empty(),
    {
        self.messages.clear();
    }
}

} // verus!
