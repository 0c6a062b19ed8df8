//! Admission queue: the fairness/capacity primitive that bounds how many
//! logical operations may hold submission access concurrently.
//!
//! The queue is sized to the completion queue's capacity.  Its invariant —
//! the number of outstanding (granted, not-yet-released) tickets never
//! exceeds that capacity — is what guarantees every submitted operation a
//! free slot to post its eventual completion into, so the completion queue
//! can never overflow.
//!
//! Tickets are granted in request order: only the waiter at the front of the
//! line can be granted, so no newly arriving waiter can starve one that has
//! been waiting longer.  Tickets are released by the completion dispatcher,
//! one release per drained completion.

use vstd::prelude::*;

verus! {

/// Bounded ticket queue gating access to the shared submission queue.
pub struct AdmissionQueue {
    /// Total ticket count; equals the completion queue's capacity.
    pub capacity: usize,
    /// Tickets granted and not yet released.
    pub outstanding: usize,
    /// Waiting access requests, front first, in arrival order.
    pub waiters: Vec<u64>,
    /// Identifier for the next access request.
    pub next_waiter: u64,
    /// Total tickets ever granted.
    pub granted: Ghost<nat>,
    /// Total tickets ever released.
    pub released: Ghost<nat>,
}

impl AdmissionQueue {
    /// Well-formedness: the bound on outstanding tickets, and the lifetime
    /// accounting that ties `outstanding` to the grant/release totals.
    pub open spec fn wf(self) -> bool {
        &&& self.outstanding <= self.capacity
        &&& self.released@ <= self.granted@
        &&& self.outstanding as nat == self.granted@ - self.released@
        &&& forall|i: int|
            0 <= i < self.waiters@.len() ==> #[trigger] self.waiters@[i] < self.next_waiter
    }

    /// A fresh queue with `capacity` tickets, none outstanding, nobody waiting.
    pub fn new(capacity: usize) -> (q: AdmissionQueue)
        ensures
            q.wf(),
            q.capacity == capacity,
            q.outstanding == 0,
            q.waiters@ == Seq::<u64>::empty(),
            q.next_waiter == 0,
            q.granted@ == 0,
            q.released@ == 0,
    {
        AdmissionQueue {
            capacity,
            outstanding: 0,
            waiters: Vec::new(),
            next_waiter: 0,
            granted: Ghost(0),
            released: Ghost(0),
        }
    }

    /// Enqueue a new access request at the back of the line and return its
    /// identifier.  No ticket is consumed until the request is granted.
    pub fn access(&mut self) -> (id: u64)
        requires
            old(self).wf(),
            old(self).next_waiter < u64::MAX,
        ensures
            final(self).wf(),
            id == old(self).next_waiter,
            final(self).waiters@ == old(self).waiters@.push(id),
            final(self).next_waiter == old(self).next_waiter + 1,
            final(self).capacity == old(self).capacity,
            final(self).outstanding == old(self).outstanding,
            final(self).granted@ == old(self).granted@,
            final(self).released@ == old(self).released@,
    {
        let id = self.next_waiter;
        self.waiters.push(id);
        self.next_waiter = self.next_waiter + 1;
        id
    }

    /// Poll the request `id`: grant a ticket exactly when `id` is at the
    /// front of the line and a ticket is free.  Grants therefore happen in
    /// arrival order.
    pub fn poll(&mut self, id: u64) -> (granted: bool)
        requires
            old(self).wf(),
        ensures
            final(self).wf(),
            granted == (old(self).waiters@.len() > 0 && old(self).waiters@[0] == id
                && old(self).outstanding < old(self).capacity),
            final(self).capacity == old(self).capacity,
            final(self).next_waiter == old(self).next_waiter,
            final(self).released@ == old(self).released@,
            granted ==> {
                &&& final(self).waiters@ == old(self).waiters@.drop_first()
                &&& final(self).outstanding == old(self).outstanding + 1
                &&& final(self).granted@ == old(self).granted@ + 1
            },
            !granted ==> *final(self) == *old(self),
    {
        if self.waiters.len() > 0 && self.outstanding < self.capacity {
            let front = self.waiters[0];
            if front == id {
                self.waiters.remove(0);
                self.outstanding = self.outstanding + 1;
                proof {
                    self.granted@ = self.granted@ + 1;
                }
                assert(self.waiters@ == old(self).waiters@.drop_first());
                return true;
            }
        }
        false
    }

    /// Return `n` tickets to circulation.  The dispatcher calls this with the
    /// count of completions it is about to process; it may never release more
    /// tickets than are outstanding.
    pub fn release(&mut self, n: usize)
        requires
            old(self).wf(),
            n <= old(self).outstanding,
        ensures
            final(self).wf(),
            final(self).outstanding == old(self).outstanding - n,
            final(self).released@ == old(self).released@ + n,
            final(self).capacity == old(self).capacity,
            final(self).waiters@ == old(self).waiters@,
            final(self).next_waiter == old(self).next_waiter,
            final(self).granted@ == old(self).granted@,
    {
        self.outstanding = self.outstanding - n;
        proof {
            self.released@ = self.released@ + n as nat;
        }
    }
}

/// The admission bound: in every well-formed state, the number of
/// outstanding (granted, unreleased) tickets is at most the queue's
/// capacity.  Every constructor and method of [`AdmissionQueue`] ensures
/// well-formedness, so the bound holds across any sequence of admissions.
pub proof fn lemma_outstanding_bounded(q: AdmissionQueue)
    requires
        q.wf(),
    ensures
        q.outstanding <= q.capacity,
{
}

} // verus!
