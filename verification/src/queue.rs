//! The bounded input-event queue.
//!
//! A fixed-capacity FIFO decouples the polling step, which captures
//! platform input, from the host that consumes it. Pushing never blocks:
//! when the queue is full the newest event is dropped. The storage is a
//! single-producer/single-consumer ring buffer of the `ringbuf` crate; both
//! halves of the split buffer live side by side in one opaque pair, and the
//! queue's contents are tracked abstractly as a sequence, oldest first.

use vstd::prelude::*;

verus! {

/// One buffered input event: a pressed key with its modifier bitmask, or a
/// decoded text fragment.
#[derive(Debug, Clone, PartialEq)]
pub enum Input {
    Key(i32, u16),
    Text(String),
}

#[verifier::external_type_specification]
#[verifier::external_body]
#[verifier::reject_recursive_types(T)]
pub struct ExProducer<T>(ringbuf::Producer<T>);

#[verifier::external_type_specification]
#[verifier::external_body]
#[verifier::reject_recursive_types(T)]
pub struct ExConsumer<T>(ringbuf::Consumer<T>);

/// A bounded FIFO of input events, dropping the pushed event when full.
///
/// Holds the producer and consumer halves of one `ringbuf::RingBuffer`.
/// The two halves share the same underlying buffer, so neither is handed
/// out on its own: the pair is modelled as a single queue with the
/// contents `queue_inputs` and the fixed capacity `queue_cap`.
pub struct InputQueue {
    prod: ringbuf::Producer<Input>,
    cons: ringbuf::Consumer<Input>,
}

/// The events buffered in `q`, oldest first.
pub uninterp spec fn queue_inputs(q: InputQueue) -> Seq<Input>;

/// The capacity `q` was created with.
pub uninterp spec fn queue_cap(q: InputQueue) -> nat;

/// What a push does to the queue's contents: appends the event while there
/// is room, else leaves the queue as it is.
pub open spec fn push_policy(s: Seq<Input>, cap: nat, e: Input) -> Seq<Input> {
    if s.len() < cap {
        s.push(e)
    } else {
        s
    }
}

impl InputQueue {
    /// Relies on `ringbuf::RingBuffer::new` and `split`: a buffer created
    /// with capacity `cap` holds no items, and its two halves share it.
    #[verifier::external_body]
    pub(crate) fn new(cap: usize) -> (q: InputQueue)
        requires
            cap < usize::MAX,
        ensures
            queue_inputs(q) == Seq::<Input>::empty(),
            queue_cap(q) == cap,
    {
        let rb = ringbuf::RingBuffer::new(cap);
        let (prod, cons) = rb.split();
        InputQueue { prod, cons }
    }

    /// Relies on `ringbuf::Producer::push`: the event is appended and `Ok`
    /// returned while the buffer is not full; on a full buffer the event is
    /// handed back in `Err` and the buffer is unchanged.
    #[verifier::external_body]
    pub(crate) fn push(&mut self, e: Input) -> (r: bool)
        ensures
            queue_cap(*final(self)) == queue_cap(*old(self)),
            queue_inputs(*final(self)) == push_policy(
                queue_inputs(*old(self)),
                queue_cap(*old(self)),
                e,
            ),
            r == (queue_inputs(*old(self)).len() < queue_cap(*old(self))),
    {
        self.prod.push(e).is_ok()
    }

    /// Relies on `ringbuf::Consumer::pop`: removes and returns the oldest
    /// buffered item, or `None` when the buffer is empty.
    #[verifier::external_body]
    pub fn pop(&mut self) -> (r: Option<Input>)
        ensures
            queue_cap(*final(self)) == queue_cap(*old(self)),
            queue_inputs(*old(self)).len() > 0 ==> {
                &&& r == Some(queue_inputs(*old(self))[0])
                &&& queue_inputs(*final(self)) == queue_inputs(*old(self)).drop_first()
            },
            queue_inputs(*old(self)).len() == 0 ==> {
                &&& r is None
                &&& queue_inputs(*final(self)) == queue_inputs(*old(self))
            },
    {
        self.cons.pop()
    }

    /// Relies on `ringbuf::Consumer::len`: the number of buffered items.
    #[verifier::external_body]
    pub fn len(&self) -> (r: usize)
        ensures
            r == queue_inputs(*self).len(),
    {
        self.cons.len()
    }

    /// Relies on `ringbuf::Consumer::capacity`: the fixed capacity.
    #[verifier::external_body]
    pub fn capacity(&self) -> (r: usize)
        ensures
            r == queue_cap(*self),
    {
        self.cons.capacity()
    }
}

/// Pushing into a full queue changes nothing: when the contents already
/// reach the capacity, the pushed event is dropped and the length stays as
/// it was.
pub proof fn lemma_push_full(s: Seq<Input>, cap: nat, e: Input)
    requires
        s.len() >= cap,
    ensures
        push_policy(s, cap, e) == s,
        push_policy(s, cap, e).len() == s.len(),
{
}

/// While there is room, pushes preserve FIFO order: the pushed event goes
/// to the back and every buffered event keeps its place.
pub proof fn lemma_push_fifo(s: Seq<Input>, cap: nat, e: Input)
    requires
        s.len() < cap,
    ensures
        push_policy(s, cap, e).len() == s.len() + 1,
        push_policy(s, cap, e)[s.len() as int] == e,
        forall|i: int| 0 <= i < s.len() ==> push_policy(s, cap, e)[i] == s[i],
{
}

} // verus!
