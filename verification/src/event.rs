//! The contract one logical operation implements: how many submission slots
//! it needs, how it fills them, and how it hands its buffers over when it is
//! abandoned before its completion arrives.

use vstd::prelude::*;

use crate::cancel::Cancellation;

verus! {

/// The kernel-facing parameters written into one submission slot.
pub enum OpData {
    /// An operation with no parameters; completes without touching memory.
    Nop,
    /// Connect the descriptor `fd` to the socket address `addr` (the model
    /// carries the address bytes the kernel would read).
    Connect { fd: i32, addr: Vec<u8> },
}

/// One filled submission slot: the operation it belongs to and its parameters.
pub struct Sqe {
    /// The logical operation this slot was reserved for.
    pub op_id: u64,
    /// The slot's kernel-facing parameters.
    pub data: OpData,
}

/// A contiguous range of submission slots reserved for one operation.
///
/// The driver reserves `cap` slots under the submission-queue lock, the
/// operation's [`Event::prepare`] fills them, and the driver installs the
/// filled range back into the queue.  Exclusivity of the range is the
/// mutable borrow itself.
pub struct SubmissionSegment {
    /// The operation the slots were reserved for.
    pub op_id: u64,
    /// How many slots were reserved.
    pub cap: usize,
    /// The slots filled so far, at most `cap`.
    pub slots: Vec<OpData>,
}

impl SubmissionSegment {
    /// Well-formedness: no more slots filled than were reserved.
    pub open spec fn wf(self) -> bool {
        self.slots@.len() <= self.cap
    }

    /// A fresh, unfilled range of `cap` slots for operation `op_id`.
    pub fn new(op_id: u64, cap: usize) -> (s: SubmissionSegment)
        ensures
            s.wf(),
            s.op_id == op_id,
            s.cap == cap,
            s.slots@.len() == 0,
    {
        SubmissionSegment { op_id, cap, slots: Vec::new() }
    }

    /// Fill the next free slot of the range with `data`.
    pub fn fill_next(&mut self, data: OpData)
        requires
            old(self).wf(),
            old(self).slots@.len() < old(self).cap,
        ensures
            final(self).wf(),
            final(self).op_id == old(self).op_id,
            final(self).cap == old(self).cap,
            final(self).slots@ == old(self).slots@.push(data),
    {
        self.slots.push(data);
    }

    /// How many slots of the range have been filled.
    pub fn filled(&self) -> (n: usize)
        ensures
            n == self.slots@.len(),
    {
        self.slots.len()
    }
}

/// Opaque token returned from the prepare phase, linking a posted operation
/// to its eventual result.  The completion router uses it to find the waiter
/// for a drained completion.
pub struct Completion {
    /// The operation this token stands for.
    pub op_id: u64,
}

/// The contract of one logical operation kind.
///
/// `sqes_needed` and `prepare` are tied together: preparing consumes exactly
/// the number of slots announced beforehand, so the driver can reserve the
/// right amount.  `cancel` consumes the operation — it can run at most once —
/// and must package every resource the kernel might still read or write into
/// a [`Cancellation`], so abandoning the operation's owner never frees memory
/// the kernel still references.
pub trait Event: Sized {
    /// How many submission slots the operation needs; fixed per value.
    spec fn spec_sqes_needed(&self) -> u32;

    /// The resource the kernel may still reference after `prepare`, as the
    /// bytes [`Self::cancel`] must keep alive; `None` if there is none.
    spec fn cancel_resource(&self) -> Option<Seq<u8>>;

    /// What a correct fill looks like: exactly the slot contents this
    /// operation is allowed to hand the kernel.
    spec fn fills(&self, slots: Seq<OpData>) -> bool;

    /// Number of submission slots required; at least one.
    fn sqes_needed(&self) -> (n: u32)
        ensures
            n == self.spec_sqes_needed(),
            1 <= n,
    ;

    /// Write the operation's kernel-facing parameters into the reserved
    /// range, filling exactly the number of slots announced by
    /// [`Self::sqes_needed`].
    fn prepare(&mut self, sqs: &mut SubmissionSegment)
        requires
            old(sqs).wf(),
            old(sqs).slots@.len() == 0,
            old(sqs).cap == old(self).spec_sqes_needed(),
        ensures
            final(sqs).wf(),
            final(sqs).op_id == old(sqs).op_id,
            final(sqs).cap == old(sqs).cap,
            final(sqs).slots@.len() == old(self).spec_sqes_needed(),
            old(self).fills(final(sqs).slots@),
            final(self).spec_sqes_needed() == old(self).spec_sqes_needed(),
            final(self).cancel_resource() == old(self).cancel_resource(),
    ;

    /// Hand over every resource the kernel might still reference.  Consuming
    /// `self` makes a second cancellation impossible; the returned holder is
    /// dropped only once the operation's completion has been observed.
    fn cancel(self) -> (c: Cancellation)
        ensures
            c.resource_view() == self.cancel_resource(),
    ;
}

/// The operation kind with no parameters: one slot, nothing for the kernel
/// to reference, so cancellation holds nothing.
pub struct Nop;

impl Event for Nop {
    open spec fn spec_sqes_needed(&self) -> u32 {
        1
    }

    open spec fn cancel_resource(&self) -> Option<Seq<u8>> {
        None
    }

    open spec fn fills(&self, slots: Seq<OpData>) -> bool {
        slots.len() == 1 && slots[0] is Nop
    }

    fn sqes_needed(&self) -> u32 {
        1
    }

    fn prepare(&mut self, sqs: &mut SubmissionSegment) {
        sqs.fill_next(OpData::Nop);
    }

    fn cancel(self) -> Cancellation {
        Cancellation::null()
    }
}

} // verus!
