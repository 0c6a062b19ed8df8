//! The demo driver handle: the two-phase prepare/submit protocol every
//! operation goes through, sequenced under the admission gate.
//!
//! A handle is lightweight and cloneable; every handle drives the same
//! explicitly passed [`Reactor`], so cloning can neither grant extra tickets
//! nor bypass the admission gate: a cloned handle starts with a fresh, ungranted access
//! request.  In a running program the polls below are driven by an executor
//! and the reactor sits behind a lock; the model takes the reactor as an
//! explicit `&mut` argument, which is exactly the exclusivity the lock
//! provides.

use vstd::prelude::*;

use crate::event::{Completion, Event};
use crate::reactor::Reactor;

verus! {

/// Result of polling a suspendable step: ready with a value, or suspended
/// until the admission queue wakes the waiter.
pub enum Poll<T> {
    /// The step finished.
    Ready(T),
    /// The step must wait and be polled again.
    Pending,
}

/// The driver handle.
pub struct DemoDriver {
    /// The handle's place in the admission queue's line, once it has asked
    /// for access.
    pub access: Option<u64>,
}

/// Construct a demo driver handle.  It joins the admission queue's line
/// lazily, at its first prepare poll.
pub fn driver() -> (d: DemoDriver)
    ensures
        d.access is None,
{
    DemoDriver { access: None }
}

impl Default for DemoDriver {
    /// A fresh handle, same as [`driver`].
    fn default() -> (d: Self)
        ensures
            d.access is None,
    {
        driver()
    }
}

impl Clone for DemoDriver {
    /// Cloning hands out a fresh handle: the clone waits its own turn and
    /// holds no ticket, so copies never multiply submission access.
    fn clone(&self) -> (d: Self)
        ensures
            d.access is None,
    {
        driver()
    }
}

impl DemoDriver {
    /// Whether the next prepare poll of this handle against reactor `r`
    /// will be granted admission: its request must be at the front of the
    /// line (joining the line counts as reaching the front of an empty
    /// line) with a ticket free.
    pub open spec fn will_grant(self, r: Reactor) -> bool {
        match self.access {
            Some(id) => r.admission.waiters@.len() > 0 && r.admission.waiters@[0] == id
                && r.admission.outstanding < r.admission.capacity,
            None => r.admission.waiters@.len() == 0 && r.admission.outstanding
                < r.admission.capacity,
        }
    }

    /// Whether `count` slots fit into the free space of `r`'s submission
    /// queue without a flush.
    pub open spec fn fits(r: Reactor, count: int) -> bool {
        count <= r.ring.sq.capacity - r.ring.sq.entries@.len()
    }

    /// The prepare phase.  Wait for admission; once granted, hold the grant
    /// for this cycle while re-enqueueing a request for the next one, then
    /// reserve the event's slots — flushing and retrying when the queue is
    /// full, the backpressure loop — let the event fill them, and install
    /// them for the next flush.  Returns the completion token of the newly
    /// pending operation, or `Pending` while admission has not been granted.
    ///
    /// Reservation never fails terminally: when the slots fit the free
    /// space, no flush happens at all; otherwise exactly one flush frees
    /// the whole queue, after which the reservation is owed.
    pub fn poll_prepare<E: Event>(&mut self, r: &mut Reactor, ev: &mut E) -> (res: Poll<
        Completion,
    >)
        requires
            old(r).wf(),
            old(ev).spec_sqes_needed() <= old(r).ring.sq.capacity,
            old(r).next_op < u64::MAX,
            old(r).admission.next_waiter < u64::MAX - 1,
        ensures
            final(r).wf(),
            final(ev).spec_sqes_needed() == old(ev).spec_sqes_needed(),
            final(ev).cancel_resource() == old(ev).cancel_resource(),
            final(r).admission.released@ == old(r).admission.released@,
            final(r).drained@ == old(r).drained@,
            final(r).cancellations@ == old(r).cancellations@,
            final(r).admission.capacity == old(r).admission.capacity,
            old(r).admission.next_waiter <= final(r).admission.next_waiter <= old(
                r,
            ).admission.next_waiter + 2,
            final(r).ring.sq.capacity == old(r).ring.sq.capacity,
            final(r).ring.cq == old(r).ring.cq,
            final(self).access is Some,
            (res is Ready) == old(self).will_grant(*old(r)),
            res is Pending ==> {
                &&& final(r).admission.granted@ == old(r).admission.granted@
                &&& final(r).ring == old(r).ring
                &&& final(r).next_op == old(r).next_op
                &&& final(r).admission.outstanding == old(r).admission.outstanding
                &&& *final(ev) == *old(ev)
                &&& (old(self).access is Some ==> *final(r) == *old(r) && *final(self) == *old(
                    self,
                ))
            },
            res matches Poll::Ready(c) ==> {
                let needed = old(ev).spec_sqes_needed() as int;
                &&& c.op_id == old(r).next_op
                &&& final(r).next_op == old(r).next_op + 1
                &&& final(r).admission.granted@ == old(r).admission.granted@ + 1
                &&& final(r).admission.outstanding == old(r).admission.outstanding + 1
                &&& final(r).op_in_flight(c.op_id)
                &&& needed <= final(r).ring.sq.entries@.len()
                &&& old(ev).fills(
                    Seq::new(
                        needed as nat,
                        |i: int|
                            final(r).ring.sq.entries@[final(r).ring.sq.entries@.len() - needed
                                + i].data,
                    ),
                )
                &&& forall|i: int|
                    final(r).ring.sq.entries@.len() - needed <= i
                        < final(r).ring.sq.entries@.len()
                        ==> #[trigger] final(r).ring.sq.entries@[i].op_id == c.op_id
                &&& Self::fits(*old(r), needed) ==> {
                    &&& final(r).ring.in_kernel@ == old(r).ring.in_kernel@
                    &&& final(r).ring.sq.ops@ == old(r).ring.sq.ops@.push(c.op_id)
                    &&& final(r).ring.sq.entries@.len() == old(r).ring.sq.entries@.len() + needed
                }
                &&& !Self::fits(*old(r), needed) ==> {
                    &&& final(r).ring.in_kernel@ == old(r).ring.in_kernel@ + old(r).ring.sq.ops@
                    &&& final(r).ring.sq.ops@ == seq![c.op_id]
                    &&& final(r).ring.sq.entries@.len() == needed
                }
            },
    {
        let id: u64 = match self.access {
            Some(id) => id,
            None => {
                let id = r.admission.access();
                self.access = Some(id);
                id
            },
        };
        let granted = r.admission.poll(id);
        if !granted {
            return Poll::Pending;
        }
        // Hold the grant for this cycle and re-enqueue for the next one, so
        // the handle keeps its place in the fairness line.
        let next = r.admission.access();
        self.access = Some(next);

        let count = ev.sqes_needed();
        let op_id = r.next_op;
        r.next_op = r.next_op + 1;

        loop
            invariant
                old(r).wf(),
                old(self).will_grant(*old(r)),
                self.access is Some,
                r.admission.wf(),
                r.ring.sq.wf(),
                r.admission.capacity == old(r).admission.capacity,
                old(r).admission.next_waiter < r.admission.next_waiter <= old(
                    r,
                ).admission.next_waiter + 2,
                r.admission.outstanding == old(r).admission.outstanding + 1,
                r.admission.granted@ == old(r).admission.granted@ + 1,
                r.admission.released@ == old(r).admission.released@,
                r.admission.capacity == old(r).ring.cq.capacity,
                r.ring.cq == old(r).ring.cq,
                r.ring.sq.capacity == old(r).ring.sq.capacity,
                r.cancellations@ == old(r).cancellations@,
                r.drained@ == old(r).drained@,
                r.next_op == old(r).next_op + 1,
                op_id == old(r).next_op,
                count == old(ev).spec_sqes_needed(),
                1 <= count <= r.ring.sq.capacity,
                *ev == *old(ev),
                ({
                    ||| {
                        &&& r.ring.sq.entries@ == old(r).ring.sq.entries@
                        &&& r.ring.sq.ops@ == old(r).ring.sq.ops@
                        &&& r.ring.in_kernel@ == old(r).ring.in_kernel@
                    }
                    ||| {
                        &&& !Self::fits(*old(r), count as int)
                        &&& r.ring.sq.entries@.len() == 0
                        &&& r.ring.sq.ops@ == Seq::<u64>::empty()
                        &&& r.ring.in_kernel@ == old(r).ring.in_kernel@ + old(r).ring.sq.ops@
                    }
                }),
            decreases r.ring.sq.entries@.len(),
        {
            match r.ring.sq.prepare(op_id, count) {
                Some(mut seg) => {
                    ev.prepare(&mut seg);
                    let ghost filled = seg.slots@;
                    r.ring.sq.install(seg);
                    proof {
                        assert(r.ring.sq.ops@.last() == op_id);
                        assert(r.ring.sq.ops@.contains(op_id));
                        let written = Seq::new(
                            count as nat,
                            |i: int|
                                r.ring.sq.entries@[r.ring.sq.entries@.len() - count as int
                                    + i].data,
                        );
                        assert(written =~= filled);
                    }
                    return Poll::Ready(Completion { op_id });
                },
                None => {
                    // No room for this reservation: flush to free every
                    // filled slot, then retry.
                    let _flushed = r.ring.submit();
                },
            }
        }
    }

    /// The submit phase.  When `eager`, flush all filled slots at once and
    /// report how many were flushed; otherwise defer the flush — report
    /// zero — so several prepares can share one later flush.  Submission
    /// never suspends.
    pub fn poll_submit(&mut self, r: &mut Reactor, eager: bool) -> (res: Poll<usize>)
        requires
            old(r).wf(),
        ensures
            final(r).wf(),
            *final(self) == *old(self),
            res is Ready,
            res matches Poll::Ready(flushed) ==> {
                &&& eager ==> {
                    &&& flushed == old(r).ring.sq.entries@.len()
                    &&& final(r).ring.sq.entries@.len() == 0
                    &&& final(r).ring.sq.ops@ == Seq::<u64>::empty()
                    &&& final(r).ring.in_kernel@ == old(r).ring.in_kernel@ + old(r).ring.sq.ops@
                    &&& final(r).ring.sq.capacity == old(r).ring.sq.capacity
                    &&& final(r).ring.cq == old(r).ring.cq
                    &&& final(r).admission == old(r).admission
                    &&& final(r).cancellations@ == old(r).cancellations@
                    &&& final(r).next_op == old(r).next_op
                    &&& final(r).drained@ == old(r).drained@
                }
                &&& !eager ==> *final(r) == *old(r) && flushed == 0
            },
    {
        let flushed: usize = if eager {
            r.ring.submit()
        } else {
            0
        };
        Poll::Ready(flushed)
    }
}

} // verus!
