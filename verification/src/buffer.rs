//! The per-subscriber pending queue of the broadcast channel, as the
//! delivery contract fixes it: bounded with a small fixed capacity,
//! and a producer never blocks — when a lagging subscriber's queue is
//! at the bound, the oldest unread update is silently dropped.  The
//! `Init` snapshot a new subscription receives resynchronizes state
//! regardless of any such loss.

use vstd::prelude::*;

use crate::model::WorkspaceUpdate;

verus! {

/// A bounded queue of pending updates, oldest first.
pub struct EventBuffer {
    items: Vec<WorkspaceUpdate>,
    capacity: usize,
}

impl EventBuffer {
    /// The pending updates, oldest first.
    pub closed spec fn contents(self) -> Seq<WorkspaceUpdate> {
        self.items@
    }

    /// The fixed bound the queue was created with.
    pub closed spec fn cap(self) -> nat {
        self.capacity as nat
    }

    /// Well-formed: a positive bound that the queue never exceeds.
    pub closed spec fn wf(self) -> bool {
        self.capacity >= 1 && self.items@.len() <= self.capacity
    }

    pub fn new(capacity: usize) -> (b: Self)
        requires
            capacity >= 1,
        ensures
            b.wf(),
            b.contents() == Seq::<WorkspaceUpdate>::empty(),
            b.cap() == capacity,
    {
        EventBuffer { items: Vec::new(), capacity }
    }

    pub fn len(&self) -> (n: usize)
        ensures
            n == self.contents().len(),
    {
        self.items.len()
    }

    pub fn capacity(&self) -> (n: usize)
        ensures
            n == self.cap(),
    {
        self.capacity
    }

    /// Queues one update.  At the bound the oldest unread update is
    /// dropped to make room; the producer never waits and the bound
    /// never grows.
    pub fn push(&mut self, u: WorkspaceUpdate)
        requires
            old(self).wf(),
        ensures
            final(self).wf(),
            final(self).cap() == old(self).cap(),
            final(self).contents() == if old(self).contents().len() == old(self).cap() {
                old(self).contents().drop_first().push(u)
            } else {
                old(self).contents().push(u)
            },
    {
        if self.items.len() == self.capacity {
            let _oldest = self.items.remove(0);
            proof {
                assert(self.items@ =~= old(self).items@.drop_first());
            }
        }
        self.items.push(u);
    }

    /// Takes the oldest pending update, if any.
    pub fn pop(&mut self) -> (r: Option<WorkspaceUpdate>)
        requires
            old(self).wf(),
        ensures
            final(self).wf(),
            final(self).cap() == old(self).cap(),
            match r {
                Some(u) => old(self).contents().len() > 0 && u == old(self).contents()[0]
                    && final(self).contents() == old(self).contents().drop_first(),
                None => old(self).contents().len() == 0 && final(self).contents() == old(
                    self,
                ).contents(),
            },
    {
        if self.items.len() == 0 {
            None
        } else {
            let u = self.items.remove(0);
            proof {
                assert(self.items@ =~= old(self).items@.drop_first());
            }
            Some(u)
        }
    }
}

} // verus!
