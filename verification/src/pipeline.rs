//! The proof pipeline: a capacity-bounded FIFO handoff between chunk
//! production and proof generation.
//!
//! Proving is far slower than re-execution, so the producer must block
//! rather than buffer unboundedly: a push on a full queue is refused, and
//! the producing thread waits until the consumer has made room.  Sessions
//! leave the queue strictly in production order.  The producer closing the
//! queue is the consumer's sole termination signal; a consumer that finds
//! the queue empty but not closed waits, and one that finds it empty and
//! closed is done.

use vstd::prelude::*;

verus! {

/// One unit of proving work: the cycle range whose execution trace is to be
/// proved.  The trace itself is held by the host beside this record.
#[derive(Debug, Clone, Copy, PartialEq, Eq, Structural)]
pub struct SessionOfCycle {
    pub from_mcycle: u64,
    pub to_mcycle: u64,
}

/// What the consumer finds on a pop.
#[derive(Debug, Clone, Copy, PartialEq, Eq, Structural)]
pub enum PopOutcome {
    /// The oldest queued session, removed from the queue.
    Item(SessionOfCycle),
    /// Nothing queued yet, but the producer may still produce: wait.
    WouldBlock,
    /// Nothing queued and the producer has closed the queue: drain is
    /// complete.
    Finished,
}

/// The bounded producer/consumer queue, oldest session first.
pub struct ProofQueue {
    pub items: Vec<SessionOfCycle>,
    pub bound: usize,
    pub closed: bool,
}

impl ProofQueue {
    pub open spec fn wf(self) -> bool {
        &&& self.bound >= 1
        &&& self.items@.len() <= self.bound
    }

    /// An empty queue with the given capacity bound.
    pub fn new(bound: usize) -> (r: ProofQueue)
        requires
            bound >= 1,
        ensures
            r.wf(),
            r.items@.len() == 0,
            r.bound == bound,
            !r.closed,
    {
        ProofQueue { items: Vec::new(), bound, closed: false }
    }

    /// Producer side: enqueue a session, or refuse because the queue is
    /// full.  A refusal is the backpressure signal — the producer must wait
    /// and retry rather than buffer the session anywhere else.
    pub fn try_push(&mut self, session: SessionOfCycle) -> (r: bool)
        requires
            old(self).wf(),
            !old(self).closed,
        ensures
            final(self).wf(),
            r <==> old(self).items@.len() < old(self).bound,
            r ==> final(self).items@ == old(self).items@.push(session),
            !r ==> *final(self) == *old(self),
            final(self).bound == old(self).bound,
            !final(self).closed,
    {
        if self.items.len() < self.bound {
            self.items.push(session);
            true
        } else {
            false
        }
    }

    /// Consumer side: take the oldest session, or learn that it must wait,
    /// or that production has finished and the queue is drained.
    pub fn try_pop(&mut self) -> (r: PopOutcome)
        requires
            old(self).wf(),
        ensures
            final(self).wf(),
            final(self).bound == old(self).bound,
            final(self).closed == old(self).closed,
            match r {
                PopOutcome::Item(session) => {
                    &&& old(self).items@.len() > 0
                    &&& session == old(self).items@[0]
                    &&& final(self).items@ == old(self).items@.drop_first()
                },
                PopOutcome::WouldBlock => {
                    &&& old(self).items@.len() == 0
                    &&& !old(self).closed
                    &&& *final(self) == *old(self)
                },
                PopOutcome::Finished => {
                    &&& old(self).items@.len() == 0
                    &&& old(self).closed
                    &&& *final(self) == *old(self)
                },
            },
    {
        if self.items.len() == 0 {
            if self.closed {
                PopOutcome::Finished
            } else {
                PopOutcome::WouldBlock
            }
        } else {
            let session = self.items.remove(0);
            proof {
                assert(self.items@ =~= old(self).items@.drop_first());
            }
            PopOutcome::Item(session)
        }
    }

    /// Producer side: signal that no further session will ever be pushed.
    /// This is the consumer's sole termination signal.
    pub fn close(&mut self)
        ensures
            final(self).items@ == old(self).items@,
            final(self).bound == old(self).bound,
            final(self).closed,
    {
        self.closed = true;
    }

    /// How many sessions are queued.
    pub fn len(&self) -> (r: usize)
        ensures
            r == self.items@.len(),
    {
        self.items.len()
    }
}

} // verus!
