//! Library-wide laws: properties that relate several components, stated
//! over the same spec functions the components' own contracts use.

use vstd::prelude::*;

use crate::reactor::Reactor;

verus! {

/// Slots required by the first `i` operations of a batch, where `counts`
/// lists the slots each operation needs.
pub open spec fn prefix_slots(counts: Seq<int>, i: int) -> int
    decreases i,
{
    if i <= 0 {
        0
    } else {
        prefix_slots(counts, i - 1) + counts[i - 1]
    }
}

proof fn lemma_prefix_monotone(counts: Seq<int>, i: int, j: int)
    requires
        0 <= i <= j <= counts.len(),
        forall|k: int| 0 <= k < counts.len() ==> #[trigger] counts[k] >= 1,
    ensures
        prefix_slots(counts, i) <= prefix_slots(counts, j),
    decreases j - i,
{
    if i < j {
        lemma_prefix_monotone(counts, i, j - 1);
    }
}

/// Batch admission needs no flush: for any sequence of operations whose
/// slot counts total at most the submission queue's capacity, every
/// operation in turn finds its slots within the free space.
///
/// Starting from an empty submission queue, the i-th prepare sees exactly
/// `prefix_slots(counts, i)` filled slots (each earlier prepare, by
/// [`DemoDriver::poll_prepare`](crate::demo::DemoDriver::poll_prepare)'s
/// contract, grew the queue by its own count without flushing), and this
/// lemma shows its own count still fits — the driver's contract then
/// guarantees the kernel sees no forced flush anywhere in the batch.
pub proof fn lemma_batch_admits_without_flush(counts: Seq<int>, capacity: int)
    requires
        forall|k: int| 0 <= k < counts.len() ==> #[trigger] counts[k] >= 1,
        prefix_slots(counts, counts.len() as int) <= capacity,
    ensures
        forall|i: int|
            0 <= i < counts.len() ==> prefix_slots(counts, i) + counts[i] <= capacity,
{
    assert forall|i: int|
        0 <= i < counts.len() implies prefix_slots(counts, i) + counts[i] <= capacity by {
        lemma_prefix_monotone(counts, i + 1, counts.len() as int);
    }
}

/// Ticket releases are exactly conservative: in every reachable reactor
/// state, the total tickets ever released equals the total completions ever
/// drained — no leak, no over-release.  Every operation of the library
/// preserves this equality as part of [`Reactor::wf`].
pub proof fn lemma_releases_match_drains(r: Reactor)
    requires
        r.wf(),
    ensures
        r.admission.released@ == r.drained@,
{
}

} // verus!
