//! The control channel: ordered and reliable, shared by two payload shapes
//! that are told apart by length alone. A payload of sixteen bytes is a
//! little-endian timestamp in milliseconds; anything else is opaque.
//!
//! The probing side measures the round trip from its own timestamps coming
//! back; the reflecting side returns every payload as it came.

use vstd::prelude::*;
use crate::endian::{
    le_bytes, le_value, lemma_le_bytes_len, lemma_le_value_bound, lemma_radix_pow_words,
    lemma_value_of_bytes, read_le, write_le,
};

verus! {

/// Length of a timestamp payload.
pub const TIMESTAMP_BYTES: usize = 16;

/// The payload that carries `millis`.
pub open spec fn timestamp_bytes(millis: u128) -> Seq<u8> {
    le_bytes(millis as nat, 16)
}

/// The timestamp that a payload carries, if it has the length of one.
pub open spec fn timestamp_of(payload: Seq<u8>) -> Option<u128> {
    if payload.len() == 16 {
        Some(le_value(payload) as u128)
    } else {
        None
    }
}

/// What the reflecting side sends back for a payload: the payload.
pub open spec fn reflected(payload: Seq<u8>) -> Seq<u8> {
    payload
}

/// The estimate after a payload has arrived at time `now`. A timestamp that
/// is not ahead of the clock replaces the estimate by the time elapsed since
/// it; any other payload leaves the estimate as it was.
pub open spec fn estimate_after(previous: u128, payload: Seq<u8>, now: u128) -> u128 {
    match timestamp_of(payload) {
        Some(sent) if sent <= now => (now - sent) as u128,
        _ => previous,
    }
}

/// Serialises a timestamp for the control channel.
pub fn encode_timestamp(millis: u128) -> (payload: Vec<u8>)
    ensures
        payload@ == timestamp_bytes(millis),
        payload@.len() == 16,
{
    proof {
        lemma_le_bytes_len(millis as nat, 16);
    }
    write_le(millis, TIMESTAMP_BYTES)
}

/// Reads a control payload as a timestamp; `None` for an opaque payload.
pub fn decode_timestamp(payload: &[u8]) -> (millis: Option<u128>)
    ensures
        millis == timestamp_of(payload@),
{
    if payload.len() == TIMESTAMP_BYTES {
        proof {
            lemma_le_value_bound(payload@);
            lemma_radix_pow_words();
        }
        Some(read_le(payload))
    } else {
        None
    }
}

/// The reflecting side's answer to a control payload: the same bytes.
pub fn reflect(payload: &[u8]) -> (reply: Vec<u8>)
    ensures
        reply@ == reflected(payload@),
{
    let mut out: Vec<u8> = Vec::new();
    let mut i: usize = 0;
    while i < payload.len()
        invariant
            i <= payload@.len(),
            out@ == payload@.take(i as int),
        decreases payload@.len() - i,
    {
        out.push(payload[i]);
        i += 1;
    }
    out
}

/// The probing side: holds the latest round-trip estimate in milliseconds.
/// Each measurement replaces the one before.
pub struct LatencyProbe {
    round_trip_ms: u128,
}

impl LatencyProbe {
    /// The current estimate.
    pub closed spec fn estimate(&self) -> u128 {
        self.round_trip_ms
    }

    /// A probe that has measured nothing yet.
    pub fn new() -> (probe: LatencyProbe)
        ensures
            probe.estimate() == 0,
    {
        LatencyProbe { round_trip_ms: 0 }
    }

    /// The current estimate, in milliseconds.
    pub fn round_trip_ms(&self) -> (millis: u128)
        ensures
            millis == self.estimate(),
    {
        self.round_trip_ms
    }

    /// The payload that opens probing on a fresh connection: the clock's
    /// reading.
    pub fn start(&self, now: u128) -> (payload: Vec<u8>)
        ensures
            payload@ == timestamp_bytes(now),
    {
        encode_timestamp(now)
    }

    /// Handles a payload that arrived at time `now` and returns the next
    /// probe, which always carries `now`.
    pub fn on_message(&mut self, payload: &[u8], now: u128) -> (reply: Vec<u8>)
        ensures
            final(self).estimate() == estimate_after(old(self).estimate(), payload@, now),
            reply@ == timestamp_bytes(now),
    {
        match decode_timestamp(payload) {
            Some(sent) => {
                if sent <= now {
                    self.round_trip_ms = now - sent;
                }
            },
            None => {},
        }
        encode_timestamp(now)
    }
}

/// A timestamp payload is read back as the timestamp it was made from.
pub proof fn lemma_timestamp_round_trip(millis: u128)
    ensures
        timestamp_of(timestamp_bytes(millis)) == Some(millis),
{
    lemma_le_bytes_len(millis as nat, 16);
    lemma_radix_pow_words();
    lemma_value_of_bytes(millis as nat, 16);
}

/// A probe sent at `sent_at` and reflected, arriving back at `received_at`,
/// sets the estimate to the time that passed in between, whatever it was
/// before. With a delay of `d` in each direction that is `2 * d`.
pub proof fn lemma_reflected_probe_measures_round_trip(
    previous: u128,
    sent_at: u128,
    received_at: u128,
)
    requires
        sent_at <= received_at,
    ensures
        estimate_after(previous, reflected(timestamp_bytes(sent_at)), received_at) == received_at
            - sent_at,
{
    lemma_timestamp_round_trip(sent_at);
}

/// An opaque payload never changes the estimate.
pub proof fn lemma_opaque_payload_keeps_estimate(previous: u128, payload: Seq<u8>, now: u128)
    requires
        payload.len() != 16,
    ensures
        estimate_after(previous, payload, now) == previous,
{
}

} // verus!
