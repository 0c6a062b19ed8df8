//! The composed reactor state: the admission queue, the ring, and the table
//! of deferred cancellations, tied together by the accounting invariant that
//! makes the whole scheme safe.
//!
//! Every operation holds exactly one admission ticket from the moment it is
//! granted until the dispatcher drains its completion, so the number of
//! operations anywhere between grant and drain equals the number of
//! outstanding tickets.  Since outstanding tickets never exceed the
//! completion queue's capacity, the kernel always finds a free completion
//! slot: the completion queue cannot overflow.

use std::collections::HashMap;

use vstd::prelude::*;

use crate::admission::AdmissionQueue;
use crate::cancel::Cancellation;
use crate::event::{Completion, Event};
use crate::ring::Ring;

verus! {

broadcast use vstd::std_specs::hash::group_hash_axioms;

/// The shared state one ring's reactor is built from.
///
/// In a running program this state sits behind a lock and an executor; the
/// model passes it explicitly, so exclusive access is the `&mut` borrow.
pub struct Reactor {
    /// The ticket queue bounding concurrent submission access.
    pub admission: AdmissionQueue,
    /// The kernel ring model.
    pub ring: Ring,
    /// Resources of abandoned operations, kept alive until the matching
    /// completion is observed, keyed by operation.
    pub cancellations: HashMap<u64, Cancellation>,
    /// Identifier for the next prepared operation.
    pub next_op: u64,
    /// Total completions the dispatcher has drained.
    pub drained: Ghost<nat>,
}

impl Reactor {
    /// Operations currently holding a ticket: pending in the submission
    /// queue, in flight in the kernel, or waiting as a ready completion.
    pub open spec fn ops_in_flight(self) -> int {
        self.ring.sq.ops@.len() + self.ring.in_kernel@.len() + self.ring.cq.queue@.len() as int
    }

    /// Whether operation `id` is somewhere between grant and drain.
    pub open spec fn op_in_flight(self, id: u64) -> bool {
        ||| self.ring.sq.ops@.contains(id)
        ||| self.ring.in_kernel@.contains(id)
        ||| self.ring.cq.queue@.contains(id)
    }

    /// The reactor invariant.
    ///
    /// The ticket pool is exactly the completion queue's capacity, every
    /// in-flight operation holds exactly one outstanding ticket, and tickets
    /// are released exactly as completions are drained.
    pub open spec fn wf(self) -> bool {
        &&& self.admission.wf()
        &&& self.ring.wf()
        &&& self.admission.capacity == self.ring.cq.capacity
        &&& self.admission.outstanding == self.ops_in_flight()
        &&& self.admission.released@ == self.drained@
    }

    /// A fresh reactor for a ring with the given queue capacities.  The
    /// admission queue is sized to the completion queue, which is what makes
    /// completion overflow impossible.
    pub fn new(sq_capacity: usize, cq_capacity: usize) -> (r: Reactor)
        ensures
            r.wf(),
            r.ring.sq.capacity == sq_capacity,
            r.ring.cq.capacity == cq_capacity,
            r.admission.capacity == cq_capacity,
            r.admission.outstanding == 0,
            r.admission.waiters@ == Seq::<u64>::empty(),
            r.admission.next_waiter == 0,
            r.next_op == 0,
            r.ring.sq.entries@.len() == 0,
            r.ring.sq.ops@ == Seq::<u64>::empty(),
            r.ring.in_kernel@ == Seq::<u64>::empty(),
            r.ring.cq.queue@ == Seq::<u64>::empty(),
            r.cancellations@ == Map::<u64, Cancellation>::empty(),
            r.drained@ == 0,
    {
        Reactor {
            admission: AdmissionQueue::new(cq_capacity),
            ring: Ring::new(sq_capacity, cq_capacity),
            cancellations: HashMap::new(),
            next_op: 0,
            drained: Ghost(0),
        }
    }

    /// The kernel finishes the in-flight operation at position `idx` and
    /// posts its completion.  Completions may finish in any order relative
    /// to submission, so `idx` is arbitrary.  No capacity check is needed:
    /// the invariant guarantees a free completion slot for every in-flight
    /// operation.
    pub fn kernel_complete(&mut self, idx: usize) -> (id: u64)
        requires
            old(self).wf(),
            idx < old(self).ring.in_kernel@.len(),
        ensures
            final(self).wf(),
            id == old(self).ring.in_kernel@[idx as int],
            final(self).ring.in_kernel@ == old(self).ring.in_kernel@.remove(idx as int),
            final(self).ring.cq.queue@ == old(self).ring.cq.queue@.push(id),
            final(self).ring.sq == old(self).ring.sq,
            final(self).ring.cq.capacity == old(self).ring.cq.capacity,
            final(self).admission == old(self).admission,
            final(self).cancellations@ == old(self).cancellations@,
            final(self).next_op == old(self).next_op,
            final(self).drained@ == old(self).drained@,
    {
        let id = self.ring.in_kernel.remove(idx);
        self.ring.cq.queue.push(id);
        id
    }

    /// Abandon a prepared operation strictly before its completion has been
    /// observed: the owning future is gone, but the kernel may still touch
    /// the operation's buffers.  The event's resources are packaged exactly
    /// once — both the token and the event are consumed — and parked in the
    /// cancellation table until the dispatcher sees the completion.
    pub fn abandon<E: Event>(&mut self, token: Completion, ev: E)
        requires
            old(self).wf(),
            old(self).op_in_flight(token.op_id),
        ensures
            final(self).wf(),
            final(self).cancellations@ == old(self).cancellations@.insert(
                token.op_id,
                final(self).cancellations@[token.op_id],
            ),
            final(self).cancellations@.contains_key(token.op_id),
            final(self).cancellations@[token.op_id].resource_view() == ev.cancel_resource(),
            final(self).admission == old(self).admission,
            final(self).ring == old(self).ring,
            final(self).next_op == old(self).next_op,
            final(self).drained@ == old(self).drained@,
    {
        let c = ev.cancel();
        self.cancellations.insert(token.op_id, c);
    }

    /// Whether an abandoned operation's resources are still parked for `id`.
    pub fn cancellation_pending(&self, id: u64) -> (b: bool)
        ensures
            b == self.cancellations@.contains_key(id),
    {
        self.cancellations.contains_key(&id)
    }
}

/// Why the completion queue cannot overflow: whenever the kernel holds an
/// operation in flight, the invariant leaves a free completion slot for it.
pub proof fn lemma_completion_slot_guaranteed(r: Reactor)
    requires
        r.wf(),
        r.ring.in_kernel@.len() > 0,
    ensures
        r.ring.cq.queue@.len() < r.ring.cq.capacity,
{
}

} // verus!
