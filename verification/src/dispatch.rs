//! The completion-dispatch pass: drain the completion queue, return one
//! admission ticket per drained completion, and route each completion —
//! which releases any cancellation parked for its operation.
//!
//! In a running program this loop lives on its own execution context, since
//! waiting for a completion blocks; each wake-up runs one pass.  Capacity is
//! released *before* any completion is routed, so a preparer waiting on the
//! very tickets this pass frees can never deadlock against it.
//!
//! The pass keeps a local `ready` counter so a whole batch of completions
//! costs one release call instead of one per completion; the counter is
//! replenished from the queue if further completions arrive mid-drain.  That
//! the counter comes back to exactly zero is the ticket-accounting ledger
//! balancing; here it is proved rather than left as a debug assertion.

use vstd::prelude::*;

use crate::reactor::Reactor;

verus! {

broadcast use vstd::std_specs::hash::group_hash_axioms;

/// Run one dispatch pass over `r`'s completion queue, which must have at
/// least one ready completion (the real dispatcher blocks until it does).
/// Returns the completions routed, oldest first.
///
/// Exactly one ticket is released per drained completion — never more,
/// never fewer — and exactly the cancellations of the drained operations
/// are dropped; every other parked cancellation survives untouched.
pub fn complete(r: &mut Reactor) -> (dispatched: Vec<u64>)
    requires
        old(r).wf(),
        old(r).ring.cq.queue@.len() >= 1,
    ensures
        final(r).wf(),
        dispatched@ == old(r).ring.cq.queue@,
        final(r).ring.cq.queue@.len() == 0,
        final(r).ring.cq.capacity == old(r).ring.cq.capacity,
        final(r).ring.sq == old(r).ring.sq,
        final(r).ring.in_kernel@ == old(r).ring.in_kernel@,
        final(r).admission.outstanding == old(r).admission.outstanding - old(
            r,
        ).ring.cq.queue@.len(),
        final(r).admission.released@ == old(r).admission.released@ + old(r).ring.cq.queue@.len(),
        final(r).drained@ == old(r).drained@ + old(r).ring.cq.queue@.len(),
        final(r).admission.capacity == old(r).admission.capacity,
        final(r).admission.waiters@ == old(r).admission.waiters@,
        final(r).admission.next_waiter == old(r).admission.next_waiter,
        final(r).admission.granted@ == old(r).admission.granted@,
        final(r).next_op == old(r).next_op,
        forall|k: u64|
            dispatched@.contains(k) ==> !final(r).cancellations@.contains_key(k),
        forall|k: u64|
            !dispatched@.contains(k) ==> final(r).cancellations@.contains_key(k) == old(
                r,
            ).cancellations@.contains_key(k) && (old(r).cancellations@.contains_key(k)
                ==> final(r).cancellations@[k] == old(r).cancellations@[k]),
{
    let mut dispatched: Vec<u64> = Vec::new();

    // Block until a completion is ready and take it.
    let cqe = r.ring.cq.wait_for_cqe();
    // Release a ticket for every ready completion plus the one just taken,
    // before routing anything: freeing capacity first is what lets waiting
    // preparers proceed.
    let mut ready: usize = r.ring.cq.ready() + 1;
    r.admission.release(ready);

    // Route the completion taken by the blocking wait.
    dispatched.push(cqe);
    let _parked = r.cancellations.remove(&cqe);
    proof {
        r.drained@ = r.drained@ + 1;
        assert(r.cancellations@ == old(r).cancellations@.remove(cqe));
        assert(dispatched@[0] == cqe);
        assert forall|k: u64| !dispatched@.contains(k) implies k != cqe by {
            if k == cqe {
                assert(dispatched@[0] == k);
                assert(dispatched@.contains(k));
            }
        }
    }
    ready = ready - 1;

    // Drain whatever else is ready without blocking.
    loop
        invariant
            old(r).wf(),
            old(r).ring.cq.queue@.len() >= 1,
            r.admission.wf(),
            ready == r.ring.cq.queue@.len(),
            dispatched@ + r.ring.cq.queue@ == old(r).ring.cq.queue@,
            r.ring.sq == old(r).ring.sq,
            r.ring.in_kernel@ == old(r).ring.in_kernel@,
            r.ring.cq.capacity == old(r).ring.cq.capacity,
            r.admission.outstanding == old(r).admission.outstanding - old(
                r,
            ).ring.cq.queue@.len(),
            r.admission.released@ == old(r).admission.released@ + old(r).ring.cq.queue@.len(),
            r.admission.capacity == old(r).admission.capacity,
            r.admission.waiters@ == old(r).admission.waiters@,
            r.admission.next_waiter == old(r).admission.next_waiter,
            r.admission.granted@ == old(r).admission.granted@,
            r.drained@ == old(r).drained@ + dispatched@.len(),
            r.next_op == old(r).next_op,
            forall|k: u64|
                dispatched@.contains(k) ==> !r.cancellations@.contains_key(k),
            forall|k: u64|
                !dispatched@.contains(k) ==> r.cancellations@.contains_key(k) == old(
                    r,
                ).cancellations@.contains_key(k) && (old(r).cancellations@.contains_key(k)
                    ==> r.cancellations@[k] == old(r).cancellations@[k]),
        ensures
            r.ring.cq.queue@.len() == 0,
        decreases r.ring.cq.queue@.len(),
    {
        match r.ring.cq.peek_for_cqe() {
            None => {
                break ;
            },
            Some(cqe) => {
                if ready == 0 {
                    // Completions arrived while this pass was draining:
                    // replenish the local counter and release their tickets
                    // too.  With the counter tracking the queue exactly,
                    // this pass has already accounted for everything it can
                    // see; the proof shows the branch cannot be reached.
                    let extra = r.ring.cq.ready() + 1;
                    r.admission.release(extra);
                    ready = extra;
                }
                let ghost prev_dispatched = dispatched@;
                let ghost prev_cancel = r.cancellations@;
                dispatched.push(cqe);
                let _parked = r.cancellations.remove(&cqe);
                proof {
                    r.drained@ = r.drained@ + 1;
                    assert(r.cancellations@ == prev_cancel.remove(cqe));
                    assert(dispatched@ == prev_dispatched.push(cqe));
                    assert(dispatched@[dispatched@.len() - 1] == cqe);
                    assert(dispatched@.contains(cqe));
                    assert forall|k: u64|
                        #[trigger] dispatched@.contains(k) && k != cqe implies prev_dispatched.contains(
                        k,
                    ) by {
                        let i = choose|i: int| 0 <= i < dispatched@.len() && dispatched@[i] == k;
                        assert(i < prev_dispatched.len());
                        assert(prev_dispatched[i] == k);
                    }
                    assert forall|k: u64| #[trigger]
                        prev_dispatched.contains(k) implies dispatched@.contains(k) by {
                        let i = choose|i: int|
                            0 <= i < prev_dispatched.len() && prev_dispatched[i] == k;
                        assert(dispatched@[i] == k);
                    }
                    assert forall|k: u64| !dispatched@.contains(k) implies r.cancellations@.contains_key(
                        k,
                    ) == old(r).cancellations@.contains_key(k) && (old(
                        r,
                    ).cancellations@.contains_key(k) ==> r.cancellations@[k] == old(
                        r,
                    ).cancellations@[k]) by {
                        assert(!prev_dispatched.contains(k));
                        assert(k != cqe);
                        assert(r.cancellations@.contains_key(k) == prev_cancel.contains_key(k));
                    }
                }
                ready = ready - 1;
            },
        }
    }

    // The ledger balances: every ticket released in this pass is matched by
    // a drained completion.
    assert(ready == 0);
    proof {
        assert(dispatched@ == old(r).ring.cq.queue@);
    }
    dispatched
}

} // verus!
