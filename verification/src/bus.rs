//! The job bus: a single ordered, bounded queue of [`WorkerMessage`].
//!
//! Producers append, the single consumer removes at most one message
//! per poll; messages leave in exactly the order they were published.

use crate::messages::WorkerMessage;
use vstd::prelude::*;

verus! {

/// A bounded first-in-first-out message queue.
pub struct JobBus {
    queue: Vec<WorkerMessage>,
    capacity: usize,
}

impl JobBus {
    /// The messages currently queued, oldest first.
    pub closed spec fn messages(self) -> Seq<WorkerMessage> {
        self.queue@
    }

    /// The bound the bus was created with.
    pub closed spec fn cap(self) -> int {
        self.capacity as int
    }

    /// The queue never exceeds its bound.
    pub open spec fn wf(self) -> bool {
        self.messages().len() <= self.cap()
    }

    /// An empty bus with the given bound.
    pub fn new(capacity: usize) -> (r: Self)
        ensures
            r.wf(),
            r.cap() == capacity,
            r.messages() == Seq::<WorkerMessage>::empty(),
    {
        JobBus { queue: Vec::new(), capacity }
    }

    /// How many messages are waiting.
    pub fn len(&self) -> (n: usize)
        ensures
            n == self.messages().len(),
    {
        self.queue.len()
    }

    /// Append one message.  Fails (leaving the bus unchanged) only
    /// when the bus is already at its bound.
    pub fn publish(&mut self, m: WorkerMessage) -> (ok: bool)
        requires
            old(self).wf(),
        ensures
            final(self).wf(),
            final(self).cap() == old(self).cap(),
            ok == (old(self).messages().len() < old(self).cap()),
            ok ==> final(self).messages() == old(self).messages().push(m),
            !ok ==> final(self).messages() == old(self).messages(),
    {
        if self.queue.len() < self.capacity {
            self.queue.push(m);
            true
        } else {
            false
        }
    }

    /// Append each message of `msgs` in order, as far as the bound
    /// allows; returns how many were appended.
    pub fn publish_all(&mut self, msgs: Vec<WorkerMessage>) -> (n: usize)
        requires
            old(self).wf(),
        ensures
            final(self).wf(),
            final(self).cap() == old(self).cap(),
            n <= msgs@.len(),
            final(self).messages() == old(self).messages() + msgs@.subrange(0, n as int),
            old(self).messages().len() + msgs@.len() <= old(self).cap() ==> n == msgs@.len(),
    {
        let ghost orig = self.messages();
        let ghost all = msgs@;
        let mut rest = msgs;
        let mut n: usize = 0;
        while rest.len() > 0 && self.queue.len() < self.capacity
            invariant
                self.capacity == old(self).capacity,
                n + rest@.len() == all.len(),
                rest@ == all.subrange(n as int, all.len() as int),
                self.queue@ == orig + all.subrange(0, n as int),
                self.queue@.len() == orig.len() + n,
                self.wf(),
            decreases rest@.len(),
        {
            let m = rest.remove(0);
            proof {
                assert(m == all[n as int]);
            }
            self.queue.push(m);
            n = n + 1;
            proof {
                assert(all.subrange(0, n as int) =~= all.subrange(0, n - 1).push(all[n - 1]));
                assert(rest@ =~= all.subrange(n as int, all.len() as int));
            }
        }
        n
    }

    /// Remove and return the oldest message, if any.
    pub fn poll(&mut self) -> (r: Option<WorkerMessage>)
        requires
            old(self).wf(),
        ensures
            final(self).wf(),
            final(self).cap() == old(self).cap(),
            old(self).messages().len() == 0 ==> r is None && final(self).messages()
                == old(self).messages(),
            old(self).messages().len() > 0 ==> (r matches Some(m) && m == old(self).messages()[0])
                && final(self).messages() == old(self).messages().drop_first(),
    {
        if self.queue.len() == 0 {
            None
        } else {
            let m = self.queue.remove(0);
            proof {
                assert(self.messages() =~= old(self).messages().drop_first());
            }
            Some(m)
        }
    }
}

} // verus!
