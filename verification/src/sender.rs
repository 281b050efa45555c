//! The sending peer: the host's blocks go in from the audio callback and
//! leave as payloads on the network side; the control channel measures the
//! round trip.

use vstd::prelude::*;
use crate::bridge::SampleBridge;
use crate::control::{estimate_after, timestamp_bytes, LatencyProbe};
use crate::frame::frame_bytes;
use crate::state::ConnectionState;
use crate::stream::{admitted, drain_frame, push_block, taken};

verus! {

/// The sending side of a connection.
pub struct Sender {
    sample_buffer: SampleBridge,
    probe: LatencyProbe,
}

impl Sender {
    /// The samples taken from the host and not yet sent, the oldest first.
    pub closed spec fn waiting(&self) -> Seq<u32> {
        self.sample_buffer@
    }

    /// The most samples that wait at a time.
    pub closed spec fn bound(&self) -> nat {
        self.sample_buffer.bound()
    }

    /// The latest round-trip estimate, in milliseconds.
    pub closed spec fn estimate(&self) -> u128 {
        self.probe.estimate()
    }

    /// A sender that buffers up to `capacity` samples and has measured
    /// nothing yet.
    pub fn new(capacity: usize) -> (sender: Sender)
        ensures
            sender.waiting() == Seq::<u32>::empty(),
            sender.bound() == capacity,
            sender.estimate() == 0,
    {
        Sender { sample_buffer: SampleBridge::new(capacity), probe: LatencyProbe::new() }
    }

    /// The audio callback: while the connection is up, the block is queued
    /// for sending as far as there is room; otherwise it is let go.
    pub fn process(&mut self, state: ConnectionState, block: &[u32])
        ensures
            final(self).bound() == old(self).bound(),
            final(self).estimate() == old(self).estimate(),
            state == ConnectionState::Connected ==> final(self).waiting() == admitted(
                old(self).waiting(),
                old(self).bound(),
                block@,
            ),
            state != ConnectionState::Connected ==> final(self).waiting() == old(self).waiting(),
    {
        match state {
            ConnectionState::Connected => {
                push_block(&mut self.sample_buffer, block);
            },
            _ => {},
        }
    }

    /// The network side: the next audio payload, made of up to `limit`
    /// waiting samples. The payload is empty when none waits.
    pub fn next_frame(&mut self, limit: usize) -> (payload: Vec<u8>)
        ensures
            final(self).bound() == old(self).bound(),
            final(self).estimate() == old(self).estimate(),
            payload@ == frame_bytes(
                old(self).waiting().take(taken(old(self).waiting().len(), limit as nat) as int),
            ),
            final(self).waiting() == old(self).waiting().skip(
                taken(old(self).waiting().len(), limit as nat) as int,
            ),
    {
        drain_frame(&mut self.sample_buffer, limit)
    }

    /// The first control payload on a fresh connection: the clock's reading.
    pub fn on_connected(&self, now: u128) -> (payload: Vec<u8>)
        ensures
            payload@ == timestamp_bytes(now),
    {
        self.probe.start(now)
    }

    /// Handles a payload of the control channel that arrived at `now`: a
    /// timestamp coming back sets the estimate; the reply is the clock's
    /// reading, so that probing goes on.
    pub fn on_control(&mut self, payload: &[u8], now: u128) -> (reply: Vec<u8>)
        ensures
            final(self).bound() == old(self).bound(),
            final(self).waiting() == old(self).waiting(),
            final(self).estimate() == estimate_after(old(self).estimate(), payload@, now),
            reply@ == timestamp_bytes(now),
    {
        self.probe.on_message(payload, now)
    }

    /// The latest round-trip estimate, in milliseconds; zero before the
    /// first measurement.
    pub fn round_trip_ms(&self) -> (millis: u128)
        ensures
            millis == self.estimate(),
    {
        self.probe.round_trip_ms()
    }

    /// How many samples wait; for display only.
    pub fn buffered(&self) -> (n: usize)
        ensures
            n == self.waiting().len(),
            n <= self.bound(),
    {
        self.sample_buffer.len()
    }
}

} // verus!
