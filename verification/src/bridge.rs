//! The result bridge: hands the outcome of exactly one background operation
//! to exactly one poller, without blocking either side. A fresh bridge is
//! made per operation; the producer pushes results, the consumer polls once
//! per redraw tick and discards the bridge after the first delivery.

use vstd::prelude::*;

verus! {

/// What one send leaves queued.
pub open spec fn bridge_send<T>(q: Seq<T>, value: T) -> Seq<T> {
    q.push(value)
}

/// What one poll yields and leaves queued: the oldest value, or nothing.
pub open spec fn bridge_receive<T>(q: Seq<T>) -> (Option<T>, Seq<T>) {
    if q.len() == 0 {
        (None, q)
    } else {
        (Some(q[0]), q.drop_first())
    }
}

/// A single-producer, single-consumer handoff queue with unbounded capacity.
pub struct Bridge<T> {
    queue: Vec<T>,
}

impl<T> View for Bridge<T> {
    type V = Seq<T>;

    closed spec fn view(&self) -> Seq<T> {
        self.queue@
    }
}

impl<T> Bridge<T> {
    /// A fresh bridge with nothing queued.
    pub fn new() -> (r: Self)
        ensures
            r@.len() == 0,
    {
        Bridge { queue: Vec::new() }
    }

    /// Queues a value. Never blocks and always succeeds: the value is kept
    /// even when nobody will poll again.
    pub fn send(&mut self, value: T)
        ensures
            final(self)@ == bridge_send(old(self)@, value),
    {
        self.queue.push(value);
    }

    /// Takes the oldest queued value, or nothing. Never blocks.
    pub fn try_receive(&mut self) -> (r: Option<T>)
        ensures
            r == bridge_receive(old(self)@).0,
            final(self)@ == bridge_receive(old(self)@).1,
    {
        if self.queue.len() == 0 {
            None
        } else {
            Some(self.queue.remove(0))
        }
    }
}

/// A bridge nothing was sent into yields nothing and stays as it is, so
/// every later poll yields nothing too; after exactly one send into an empty
/// bridge, exactly the first poll yields that value and leaves the bridge
/// empty again.
pub proof fn lemma_bridge_single_delivery<T>(q: Seq<T>, value: T)
    requires
        q.len() == 0,
    ensures
        bridge_receive(q).0 is None,
        bridge_receive(q).1 == q,
        bridge_receive(bridge_send(q, value)).0 == Some(value),
        bridge_receive(bridge_send(q, value)).1.len() == 0,
{
    assert(bridge_send(q, value)[0] == value);
}

} // verus!
