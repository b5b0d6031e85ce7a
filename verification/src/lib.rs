//! Core of a real-time rendering engine layer: an asynchronous, multi-stage
//! resource-loading pipeline (disk read, CPU decode, GPU upload) driven by
//! pollable futures, together with the ownership-scoped identity check that
//! render targets use to validate the resources handed to them.
//!
//! The pipeline's decision logic lives here, fully verified: which state each
//! load is in, how a poll moves it forward, and how errors of each stage are
//! classified. The surrounding process (thread pools, file reads, the graphics
//! device) performs the actual waiting and hands the outcomes in as events.

use vstd::prelude::*;

pub mod cpu_pool;
pub mod texture;

verus! {

/// Issues identity markers for [`ObjectIdRoot`]s. Each root created through
/// one tracker carries a marker no other root from that tracker ever shares,
/// living or dead; an engine creates a single tracker at startup and threads
/// it through wherever roots are made.
pub struct IdentityTracker {
    next: u64,
}

impl IdentityTracker {
    /// The marker the next root created through this tracker will receive.
    pub closed spec fn next_id(&self) -> u64 {
        self.next
    }

    pub fn new() -> (tracker: Self)
        ensures
            tracker.next_id() == 0,
    {
        IdentityTracker { next: 0 }
    }
}

/// A root object owning an identity marker. Handles derived from it via
/// [`ObjectIdRoot::make_id`] are valid under this root and no other: the
/// tracker never reissues a marker, so once a root is gone, the handles it
/// produced validate under no root at all.
pub struct ObjectIdRoot {
    val: u64,
}

impl ObjectIdRoot {
    /// The identity marker this root owns.
    pub closed spec fn id(&self) -> u64 {
        self.val
    }

    pub fn new(tracker: &mut IdentityTracker) -> (root: Self)
        requires
            old(tracker).next_id() < u64::MAX,
        ensures
            root.id() == old(tracker).next_id(),
            final(tracker).next_id() == old(tracker).next_id() + 1,
    {
        let id = tracker.next;
        tracker.next = tracker.next + 1;
        ObjectIdRoot { val: id }
    }

    /// Derives a non-owning handle that validates exactly under this root.
    pub fn make_id(&self) -> (id: ObjectId)
        ensures
            id.root_id() == self.id(),
    {
        ObjectId { val: self.val }
    }
}

/// A non-owning handle derived from an [`ObjectIdRoot`]; carries the marker
/// of the root it came from.
#[derive(Clone, Copy)]
pub struct ObjectId {
    val: u64,
}

impl ObjectId {
    /// The marker of the root this handle was derived from.
    pub closed spec fn root_id(&self) -> u64 {
        self.val
    }

    /// Whether this handle validates under `root`.
    pub open spec fn is_child_of_spec(&self, root: &ObjectIdRoot) -> bool {
        self.root_id() == root.id()
    }

    /// True exactly when this handle was derived from `root`: the markers
    /// compare equal. Markers are never reissued, so a handle from a root
    /// that no longer exists answers false under every root that does.
    pub fn is_child_of(&self, root: &ObjectIdRoot) -> (r: bool)
        ensures
            r == self.is_child_of_spec(root),
    {
        self.val == root.val
    }
}

/// Law: a handle validates under the root it was derived from, and handles
/// from two distinct roots are never cross-valid.
pub proof fn lemma_identity_is_root_scoped(a: &ObjectIdRoot, b: &ObjectIdRoot, handle: &ObjectId)
    requires
        handle.root_id() == a.id(),
        a.id() != b.id(),
    ensures
        handle.is_child_of_spec(a),
        !handle.is_child_of_spec(b),
{
}

/// Something that can be drawn to and owns the identity scope of the
/// resources presented to it; the renderer's targets implement this.
pub trait RenderTarget {
    fn id_root(&self) -> &ObjectIdRoot;
}

} // verus!
