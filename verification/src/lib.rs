//! A verified model of a reactor that shares one kernel I/O ring among many
//! concurrent operations.
//!
//! The ring is a pair of fixed-capacity circular buffers: a submission queue
//! the program fills and a completion queue the kernel fills.  The library
//! verifies the concurrency-accounting core of such a reactor:
//!
//! - [`admission`]: the ticket queue that bounds how many operations may hold
//!   submission access at once, sized to the completion queue's capacity so
//!   completions can never overflow.
//! - [`ring`]: the model of the submission queue, completion queue and the
//!   kernel's in-flight set.
//! - [`event`]: the contract an operation kind implements — how many slots it
//!   needs, how it fills them, and how it hands its buffers over when
//!   abandoned.
//! - [`cancel`]: the deferred-drop holder that keeps an abandoned operation's
//!   buffers alive until the kernel is done with them.
//! - [`reactor`]: the composed state and its invariant.
//! - [`demo`]: the driver handle with the two-phase prepare/submit protocol.
//! - [`dispatch`]: the completion-dispatch pass that drains the completion
//!   queue and returns tickets.
//! - [`connect`]: the representative concrete operation kind.
//! - [`laws`]: proofs that relate several components at once.

pub mod admission;
pub mod cancel;
pub mod connect;
pub mod demo;
pub mod dispatch;
pub mod event;
pub mod laws;
pub mod reactor;
pub mod ring;

use vstd::prelude::*;

verus! {

/// Number of slots in the submission queue of the demo configuration.
pub const SQ_ENTRIES: usize = 32;

/// Number of slots in the completion queue of the demo configuration:
/// twice the submission capacity, so completions for earlier submissions
/// can still be arriving while a full batch of new ones is prepared.
pub const CQ_ENTRIES: usize = 2 * SQ_ENTRIES;

} // verus!
