//! The acquisition queue: a fixed-capacity FIFO of sample batches with a
//! single producer (the sensor interrupt) and a single consumer (the main
//! loop). The producer never blocks: enqueue on a full queue fails and the
//! batch is dropped, an accounted loss rather than a fault.

use vstd::prelude::*;

verus! {

/// Number of batch slots in the acquisition queue.
pub const QUEUE_SZ: usize = 32;

use crate::axl::AxlPacket;

/// Fixed-capacity FIFO of sample batches. Batches come out in the order
/// they went in, each exactly once.
pub struct AxlQueue {
    items: Vec<AxlPacket>,
}

impl View for AxlQueue {
    type V = Seq<AxlPacket>;

    closed spec fn view(&self) -> Seq<AxlPacket> {
        self.items@
    }
}

impl AxlQueue {
    /// The queue never exceeds its capacity and holds only well-formed
    /// batches.
    pub open spec fn wf(&self) -> bool {
        &&& self@.len() <= QUEUE_SZ
        &&& forall|i: int| 0 <= i < self@.len() ==> self@[i].wf()
    }

    pub fn new() -> (q: AxlQueue)
        ensures
            q.wf(),
            q@ == Seq::<AxlPacket>::empty(),
    {
        AxlQueue { items: Vec::new() }
    }

    pub fn len(&self) -> (n: usize)
        ensures
            n == self@.len(),
    {
        self.items.len()
    }

    pub fn is_empty(&self) -> (r: bool)
        ensures
            r == (self@.len() == 0),
    {
        self.items.len() == 0
    }

    /// Non-blocking enqueue. While there is capacity the batch is appended
    /// in arrival order; on a full queue the call fails, the batch is
    /// dropped and the queue is left unchanged — no overwrite, no panic.
    pub fn enqueue(&mut self, p: AxlPacket) -> (accepted: bool)
        requires
            old(self).wf(),
            p.wf(),
        ensures
            final(self).wf(),
            accepted == (old(self)@.len() < QUEUE_SZ),
            accepted ==> final(self)@ == old(self)@.push(p),
            !accepted ==> final(self)@ == old(self)@,
    {
        if self.items.len() < QUEUE_SZ {
            self.items.push(p);
            true
        } else {
            false
        }
    }

    /// Non-blocking dequeue: empties at most one slot, returning the oldest
    /// batch still held, or nothing when the queue is empty.
    pub fn dequeue(&mut self) -> (r: Option<AxlPacket>)
        requires
            old(self).wf(),
        ensures
            final(self).wf(),
            old(self)@.len() == 0 ==> r is None && final(self)@ == old(self)@,
            old(self)@.len() > 0 ==> r == Some(old(self)@[0]) && final(self)@ == old(self)@.skip(1),
    {
        if self.items.len() == 0 {
            None
        } else {
            let p = self.items.remove(0);
            proof {
                assert(self.items@ =~= old(self)@.skip(1));
            }
            Some(p)
        }
    }
}

/// First-in-first-out delivery: for a queue holding the batches `s` in
/// arrival order, the batch returned by the `i`-th dequeue is exactly
/// `s[i]` — after `i` dequeues the queue holds `s.skip(i)`, whose front is
/// `s[i]`, and one more dequeue leaves `s.skip(i + 1)`. So every batch that
/// was accepted comes out exactly once, in the order it went in.
pub proof fn lemma_fifo_order(s: Seq<AxlPacket>, i: int)
    requires
        0 <= i < s.len(),
    ensures
        s.skip(i)[0] == s[i],
        s.skip(i).skip(1) == s.skip(i + 1),
{
    assert(s.skip(i).skip(1) =~= s.skip(i + 1));
}

/// The batches that repeated dequeues return, in order, from a queue
/// holding `s`: the front, then whatever draining the rest returns —
/// exactly the shape of `dequeue`'s contract, iterated to emptiness.
pub open spec fn drained(s: Seq<AxlPacket>) -> Seq<AxlPacket>
    decreases s.len(),
{
    if s.len() == 0 {
        Seq::empty()
    } else {
        seq![s[0]] + drained(s.skip(1))
    }
}

/// Draining a queue returns exactly its content: for every `s`, dequeuing
/// until empty yields the batches of `s`, in arrival order, each exactly
/// once — no batch is lost, duplicated or reordered.
pub proof fn lemma_drain_returns_all(s: Seq<AxlPacket>)
    ensures
        drained(s) == s,
    decreases s.len(),
{
    if s.len() == 0 {
        assert(drained(s) =~= s);
    } else {
        lemma_drain_returns_all(s.skip(1));
        assert(seq![s[0]] + s.skip(1) =~= s);
    }
}

} // verus!
