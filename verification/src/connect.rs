//! The representative concrete operation: connect a socket descriptor to an
//! address.  The kernel reads the address bytes from caller-owned memory
//! while the operation is in flight, so cancellation must keep them alive.

use vstd::prelude::*;

use crate::cancel::Cancellation;
use crate::event::{Event, OpData, SubmissionSegment};

verus! {

/// A connect operation: descriptor plus the socket address it connects to,
/// carried as the bytes the kernel will read.
pub struct Connect {
    /// The socket file descriptor.
    pub fd: i32,
    /// The socket address bytes the kernel reads while connecting.
    pub addr: Vec<u8>,
}

impl Event for Connect {
    open spec fn spec_sqes_needed(&self) -> u32 {
        1
    }

    open spec fn cancel_resource(&self) -> Option<Seq<u8>> {
        Some(self.addr@)
    }

    open spec fn fills(&self, slots: Seq<OpData>) -> bool {
        slots.len() == 1 && (slots[0] matches OpData::Connect { fd, addr } && fd == self.fd
            && addr@ == self.addr@)
    }

    fn sqes_needed(&self) -> u32 {
        1
    }

    fn prepare(&mut self, sqs: &mut SubmissionSegment) {
        let mut addr_bytes: Vec<u8> = Vec::new();
        let mut i: usize = 0;
        while i < self.addr.len()
            invariant
                i <= self.addr@.len(),
                addr_bytes@ == self.addr@.subrange(0, i as int),
            decreases self.addr@.len() - i,
        {
            addr_bytes.push(self.addr[i]);
            i = i + 1;
        }
        assert(addr_bytes@ == self.addr@);
        sqs.fill_next(OpData::Connect { fd: self.fd, addr: addr_bytes });
    }

    fn cancel(self) -> Cancellation {
        Cancellation::object(self.addr)
    }
}

} // verus!
