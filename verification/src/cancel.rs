//! Deferred-drop holder for buffers an in-flight kernel operation still
//! references after the owning operation was abandoned.
//!
//! A `Cancellation` owns exactly one resource (or none).  It is created only
//! when an operation is abandoned before its completion arrives, and it is
//! dropped only once the dispatcher has observed that operation's completion,
//! so the kernel's in-flight access to the resource stays valid.  It has no
//! behavior of its own: it exists purely to extend a lifetime.

use vstd::prelude::*;

verus! {

/// Keeps one resource (modeled as its bytes) alive past the lifetime of the
/// operation that handed it over.
pub struct Cancellation {
    /// The held resource, or `None` for an operation that referenced nothing.
    pub resource: Option<Vec<u8>>,
}

impl Cancellation {
    /// The held resource as a mathematical value: the byte sequence it owns,
    /// or `None` when nothing is held.
    pub open spec fn resource_view(self) -> Option<Seq<u8>> {
        match self.resource {
            Some(buf) => Some(buf@),
            None => None,
        }
    }

    /// Package one resource for deferred drop.
    pub fn object(buf: Vec<u8>) -> (c: Cancellation)
        ensures
            c.resource_view() == Some(buf@),
    {
        Cancellation { resource: Some(buf) }
    }

    /// A cancellation that holds nothing, for operations whose slots
    /// reference no caller-owned memory.
    pub fn null() -> (c: Cancellation)
        ensures
            c.resource_view() is None,
    {
        Cancellation { resource: None }
    }

    /// Whether a resource is held.
    pub fn holds_resource(&self) -> (b: bool)
        ensures
            b == (self.resource_view() is Some),
    {
        self.resource.is_some()
    }
}

} // verus!
