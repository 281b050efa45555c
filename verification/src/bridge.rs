//! The sample queue between the network side and the audio callback.
//!
//! Samples wait in a lock-free segmented queue. The bridge adds the bound:
//! a sample that arrives while the queue holds `capacity` samples is dropped,
//! and the samples already waiting keep their places.

use vstd::prelude::*;
use crossbeam::queue::SegQueue;

verus! {

/// `crossbeam::queue::SegQueue`, the unbounded segmented queue. Nothing is
/// known of a value but what `queued` says it holds.
#[verifier::external_type_specification]
#[verifier::external_body]
#[verifier::reject_recursive_types(T)]
pub struct ExSegQueue<T>(SegQueue<T>);

/// The samples waiting in a queue, the oldest first. The queue is taken to
/// be in one hand: what it holds changes only through the calls below.
pub uninterp spec fn queued(queue: SegQueue<u32>) -> Seq<u32>;

/// `SegQueue::new`: a queue that holds nothing.
#[verifier::external_body]
fn queue_new() -> (queue: SegQueue<u32>)
    ensures
        queued(queue) == Seq::<u32>::empty(),
{
    SegQueue::new()
}

/// `SegQueue::push`: the value goes to the back; the queue is unbounded, so
/// every push is taken. The call does not unwind.
#[verifier::external_body]
fn queue_push(queue: &mut SegQueue<u32>, sample: u32)
    ensures
        queued(*final(queue)) == queued(*old(queue)).push(sample),
    no_unwind
{
    queue.push(sample)
}

/// `SegQueue::pop`: takes the value at the front, or returns `None` and
/// leaves the queue alone when it holds nothing. The call does not unwind.
#[verifier::external_body]
fn queue_pop(queue: &mut SegQueue<u32>) -> (front: Option<u32>)
    ensures
        queued(*old(queue)).len() == 0 ==> front.is_none() && queued(*final(queue)) == queued(
            *old(queue),
        ),
        queued(*old(queue)).len() > 0 ==> front == Some(queued(*old(queue))[0]) && queued(
            *final(queue),
        ) == queued(*old(queue)).drop_first(),
    no_unwind
{
    queue.pop()
}

/// `SegQueue::len`: the number of values in the queue.
#[verifier::external_body]
fn queue_len(queue: &SegQueue<u32>) -> (n: usize)
    ensures
        n == queued(*queue).len(),
{
    queue.len()
}

/// A bounded first-in, first-out queue of samples.
pub struct SampleBridge {
    queue: SegQueue<u32>,
    capacity: usize,
}

impl View for SampleBridge {
    type V = Seq<u32>;

    /// The samples waiting, the oldest first.
    closed spec fn view(&self) -> Seq<u32> {
        queued(self.queue)
    }
}

impl SampleBridge {
    /// The most samples the bridge holds at a time.
    pub closed spec fn bound(&self) -> nat {
        self.capacity as nat
    }

    #[verifier::type_invariant]
    spec fn within_bound(&self) -> bool {
        queued(self.queue).len() <= self.capacity
    }

    /// An empty bridge that holds up to `capacity` samples.
    pub fn new(capacity: usize) -> (bridge: SampleBridge)
        ensures
            bridge@ == Seq::<u32>::empty(),
            bridge.bound() == capacity,
    {
        SampleBridge { queue: queue_new(), capacity }
    }

    /// The bound the bridge was made with.
    pub fn capacity(&self) -> (capacity: usize)
        ensures
            capacity == self.bound(),
    {
        self.capacity
    }

    /// The number of samples waiting; never more than the bound.
    pub fn len(&self) -> (n: usize)
        ensures
            n == self@.len(),
            n <= self.bound(),
    {
        proof {
            use_type_invariant(self);
        }
        queue_len(&self.queue)
    }

    /// Whether no sample is waiting.
    pub fn is_empty(&self) -> (empty: bool)
        ensures
            empty == (self@.len() == 0),
    {
        queue_len(&self.queue) == 0
    }

    /// Queues a sample behind those waiting, or drops it when the bridge is
    /// full. Never waits.
    pub fn push(&mut self, sample: u32)
        ensures
            final(self).bound() == old(self).bound(),
            old(self)@.len() < old(self).bound() ==> final(self)@ == old(self)@.push(sample),
            old(self)@.len() >= old(self).bound() ==> final(self)@ == old(self)@,
    {
        if queue_len(&self.queue) < self.capacity {
            queue_push(&mut self.queue, sample);
        }
    }

    /// Takes the oldest sample, or returns `None` at once when none waits.
    pub fn pop(&mut self) -> (sample: Option<u32>)
        ensures
            final(self).bound() == old(self).bound(),
            old(self)@.len() == 0 ==> sample.is_none() && final(self)@ == old(self)@,
            old(self)@.len() > 0 ==> sample == Some(old(self)@[0]) && final(self)@ == old(
                self,
            )@.drop_first(),
    {
        proof {
            use_type_invariant(&*self);
        }
        queue_pop(&mut self.queue)
    }

    /// Discards every sample waiting.
    pub fn clear(&mut self)
        ensures
            final(self).bound() == old(self).bound(),
            final(self)@ == Seq::<u32>::empty(),
    {
        proof {
            use_type_invariant(&*self);
        }
        let mut left: usize = queue_len(&self.queue);
        while left > 0
            invariant
                self.capacity == old(self).capacity,
                left == queued(self.queue).len(),
                left <= self.capacity,
            decreases left,
        {
            let _ = queue_pop(&mut self.queue);
            left -= 1;
        }
    }
}

} // verus!
