//! Model of the kernel I/O ring: the submission queue the program fills, the
//! completion queue the kernel fills, and the set of operations the kernel
//! currently holds in flight.
//!
//! The ring primitive itself (slot layout, entry encoding, the syscalls that
//! move entries) lives outside this library; this model keeps exactly the
//! state the reactor's accounting depends on — how many slots are filled but
//! unflushed, which operations are in the kernel, and which completions are
//! ready — so the driver and dispatcher logic above it can be verified.

use vstd::prelude::*;

use crate::event::{Sqe, SubmissionSegment};

verus! {

/// The fixed-capacity queue of submission slots.
///
/// `entries` are the slots that have been reserved and filled but not yet
/// flushed to the kernel; `ops` lists the operations those slots belong to,
/// in flush order.  Free slots are `capacity - entries.len()`.
pub struct SubmissionQueue {
    /// Total number of slots.
    pub capacity: usize,
    /// Filled, unflushed slots, in order.
    pub entries: Vec<Sqe>,
    /// Operations with filled, unflushed slots, in flush order.
    pub ops: Vec<u64>,
}

impl SubmissionQueue {
    /// Well-formedness: the queue never holds more filled slots than it has,
    /// and every pending operation occupies at least one slot.
    pub open spec fn wf(self) -> bool {
        &&& self.entries@.len() <= self.capacity
        &&& self.ops@.len() <= self.entries@.len()
    }

    /// An empty queue of `capacity` slots.
    pub fn new(capacity: usize) -> (sq: SubmissionQueue)
        ensures
            sq.wf(),
            sq.capacity == capacity,
            sq.entries@.len() == 0,
            sq.ops@ == Seq::<u64>::empty(),
    {
        SubmissionQueue { capacity, entries: Vec::new(), ops: Vec::new() }
    }

    /// Reserve `count` contiguous free slots for operation `op_id`, or
    /// return `None` when fewer than `count` slots are free — in which case
    /// the caller must flush before retrying.  The caller's exclusive borrow
    /// of the queue is what makes the reservation atomic: the returned range
    /// is filled and installed back before anyone else can reserve.
    pub fn prepare(&self, op_id: u64, count: u32) -> (r: Option<SubmissionSegment>)
        requires
            self.wf(),
            1 <= count,
        ensures
            (r is Some) == (count <= self.capacity - self.entries@.len()),
            match r {
                Some(seg) => {
                    &&& seg.wf()
                    &&& seg.op_id == op_id
                    &&& seg.cap == count
                    &&& seg.slots@.len() == 0
                },
                None => true,
            },
    {
        if count as usize <= self.capacity - self.entries.len() {
            Some(SubmissionSegment::new(op_id, count as usize))
        } else {
            None
        }
    }

    /// Install a fully filled slot range back into the queue, making its
    /// operation pending for the next flush.
    pub fn install(&mut self, seg: SubmissionSegment)
        requires
            old(self).wf(),
            seg.wf(),
            seg.slots@.len() == seg.cap,
            1 <= seg.cap,
            old(self).entries@.len() + seg.cap <= old(self).capacity,
        ensures
            final(self).wf(),
            final(self).capacity == old(self).capacity,
            final(self).entries@.len() == old(self).entries@.len() + seg.cap,
            final(self).ops@ == old(self).ops@.push(seg.op_id),
            forall|i: int|
                0 <= i < old(self).entries@.len() ==> final(self).entries@[i] == old(
                    self,
                ).entries@[i],
            forall|i: int|
                old(self).entries@.len() <= i < final(self).entries@.len() ==> {
                    &&& final(self).entries@[i].op_id == seg.op_id
                    &&& final(self).entries@[i].data == seg.slots@[i - old(self).entries@.len()]
                },
    {
        let SubmissionSegment { op_id, cap, mut slots } = seg;
        let base: usize = self.entries.len();
        let ghost orig = slots@;
        while slots.len() > 0
            invariant
                self.capacity == old(self).capacity,
                self.ops@ == old(self).ops@,
                base == old(self).entries@.len(),
                orig.len() == cap,
                base + cap <= self.capacity,
                slots@.len() <= orig.len(),
                slots@ == orig.skip(orig.len() - slots@.len()),
                self.entries@.len() == base + orig.len() - slots@.len(),
                forall|i: int| 0 <= i < base ==> self.entries@[i] == old(self).entries@[i],
                forall|i: int|
                    base <= i < self.entries@.len() ==> {
                        &&& self.entries@[i].op_id == op_id
                        &&& self.entries@[i].data == orig[i - base]
                    },
            decreases slots@.len(),
        {
            let data = slots.remove(0);
            self.entries.push(Sqe { op_id, data });
        }
        self.ops.push(op_id);
    }
}

/// The fixed-capacity queue of ready completions, identified by the
/// operation each completes.
pub struct CompletionQueue {
    /// Total number of slots.
    pub capacity: usize,
    /// Ready completions, oldest first.
    pub queue: Vec<u64>,
}

impl CompletionQueue {
    /// Well-formedness: the kernel never posts past the queue's capacity.
    pub open spec fn wf(self) -> bool {
        self.queue@.len() <= self.capacity
    }

    /// An empty queue of `capacity` slots.
    pub fn new(capacity: usize) -> (cq: CompletionQueue)
        ensures
            cq.wf(),
            cq.capacity == capacity,
            cq.queue@ == Seq::<u64>::empty(),
    {
        CompletionQueue { capacity, queue: Vec::new() }
    }

    /// Retrieve the oldest ready completion.  The real ring blocks until one
    /// is ready; the model asks its caller to have established that.
    pub fn wait_for_cqe(&mut self) -> (cqe: u64)
        requires
            old(self).wf(),
            old(self).queue@.len() >= 1,
        ensures
            final(self).wf(),
            cqe == old(self).queue@[0],
            final(self).queue@ == old(self).queue@.drop_first(),
            final(self).capacity == old(self).capacity,
    {
        self.queue.remove(0)
    }

    /// Retrieve the oldest ready completion without blocking, or `None` when
    /// none is ready.
    pub fn peek_for_cqe(&mut self) -> (r: Option<u64>)
        requires
            old(self).wf(),
        ensures
            final(self).wf(),
            final(self).capacity == old(self).capacity,
            (r is Some) == (old(self).queue@.len() > 0),
            match r {
                Some(cqe) => {
                    &&& cqe == old(self).queue@[0]
                    &&& final(self).queue@ == old(self).queue@.drop_first()
                },
                None => *final(self) == *old(self),
            },
    {
        if self.queue.len() > 0 {
            Some(self.queue.remove(0))
        } else {
            None
        }
    }

    /// How many completions are currently ready.
    pub fn ready(&self) -> (n: usize)
        ensures
            n == self.queue@.len(),
    {
        self.queue.len()
    }
}

/// The ring: both queues plus the operations the kernel holds in flight
/// (submitted, completion not yet posted).
pub struct Ring {
    /// The submission queue.
    pub sq: SubmissionQueue,
    /// The completion queue.
    pub cq: CompletionQueue,
    /// Operations the kernel is working on, in submission order.
    pub in_kernel: Vec<u64>,
}

impl Ring {
    /// Well-formedness of both queues.
    pub open spec fn wf(self) -> bool {
        &&& self.sq.wf()
        &&& self.cq.wf()
    }

    /// A fresh ring with the given queue capacities and nothing in flight.
    pub fn new(sq_capacity: usize, cq_capacity: usize) -> (r: Ring)
        ensures
            r.wf(),
            r.sq.capacity == sq_capacity,
            r.cq.capacity == cq_capacity,
            r.sq.entries@.len() == 0,
            r.sq.ops@ == Seq::<u64>::empty(),
            r.cq.queue@ == Seq::<u64>::empty(),
            r.in_kernel@ == Seq::<u64>::empty(),
    {
        Ring {
            sq: SubmissionQueue::new(sq_capacity),
            cq: CompletionQueue::new(cq_capacity),
            in_kernel: Vec::new(),
        }
    }

    /// Flush all filled slots to the kernel: their operations move in
    /// flight, every slot becomes free again, and the number of flushed
    /// slots is returned.
    pub fn submit(&mut self) -> (flushed: usize)
        requires
            old(self).wf(),
        ensures
            final(self).wf(),
            flushed == old(self).sq.entries@.len(),
            final(self).sq.capacity == old(self).sq.capacity,
            final(self).sq.entries@.len() == 0,
            final(self).sq.ops@ == Seq::<u64>::empty(),
            final(self).in_kernel@ == old(self).in_kernel@ + old(self).sq.ops@,
            final(self).cq == old(self).cq,
    {
        let flushed = self.sq.entries.len();
        self.sq.entries.clear();
        let mut pending: Vec<u64> = Vec::new();
        core::mem::swap(&mut pending, &mut self.sq.ops);
        let ghost orig = pending@;
        while pending.len() > 0
            invariant
                self.sq.capacity == old(self).sq.capacity,
                self.sq.entries@.len() == 0,
                self.sq.ops@ == Seq::<u64>::empty(),
                self.cq == old(self).cq,
                pending@.len() <= orig.len(),
                pending@ == orig.skip(orig.len() - pending@.len()),
                self.in_kernel@ == old(self).in_kernel@ + orig.take(
                    orig.len() - pending@.len(),
                ),
            decreases pending@.len(),
        {
            let id = pending.remove(0);
            self.in_kernel.push(id);
        }
        assert(orig.take(orig.len() as int) == orig);
        flushed
    }
}

} // verus!
