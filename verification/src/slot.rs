//! The shared capture slot: a single holder of at most one pending captured
//! callback value and of the handle of a running listener. The host wraps one
//! slot in its own mutual-exclusion guard; every operation here is a bounded
//! read or write of the guarded value.

use vstd::prelude::*;

verus! {

/// The abstract state of a capture slot: the pending captured value, if any,
/// and whether a listener handle is currently stored.
pub struct SlotView {
    pub pending: Option<Seq<char>>,
    pub active: bool,
}

/// A slot holding `value` as its pending capture; a later capture overwrites
/// an earlier one (last writer wins), so storing never depends on the slot
/// being empty.
pub open spec fn captured(s: SlotView, value: Seq<char>) -> SlotView {
    SlotView { pending: Some(value), active: s.active }
}

/// A slot whose pending value has just been retrieved and cleared.
pub open spec fn taken(s: SlotView) -> SlotView {
    SlotView { pending: None, active: s.active }
}

/// What retrieval returns on a slot: the pending value, or absence.
pub open spec fn take_value(s: SlotView) -> Option<Seq<char>> {
    s.pending
}

/// Retrieval is idempotent-once: whatever the slot held, retrieving from the
/// slot it leaves behind returns absence until a new capture arrives.
pub proof fn lemma_take_idempotent_once(s: SlotView)
    ensures
        take_value(taken(s)) is None,
        taken(s).active == s.active,
{
}

/// The capture slot. At most one pending value exists at any time: a second
/// capture overwrites the first rather than queuing.
pub struct CaptureSlot {
    pending: Option<String>,
    listener: Option<tokio::task::JoinHandle<()>>,
}

impl View for CaptureSlot {
    type V = SlotView;

    closed spec fn view(&self) -> SlotView {
        SlotView {
            pending: match self.pending {
                Some(s) => Some(s@),
                None => None,
            },
            active: self.listener is Some,
        }
    }
}

impl CaptureSlot {
    /// A fresh slot: empty, with no listener recorded.
    pub fn new() -> (slot: CaptureSlot)
        ensures
            slot@.pending is None,
            !slot@.active,
    {
        CaptureSlot { pending: None, listener: None }
    }

    /// Stores a captured value, overwriting any unretrieved one.
    pub fn set(&mut self, value: String)
        ensures
            final(self)@ == captured(old(self)@, value@),
    {
        self.pending = Some(value);
    }

    /// Retrieves and clears the pending value in one step; returns absence
    /// when nothing has been captured since the last retrieval.
    pub fn take(&mut self) -> (r: Option<String>)
        ensures
            final(self)@ == taken(old(self)@),
            match r {
                Some(v) => take_value(old(self)@) == Some(v@),
                None => take_value(old(self)@) is None,
            },
    {
        self.pending.take()
    }

    /// Whether a listener handle is currently stored.
    pub fn listener_active(&self) -> (r: bool)
        ensures
            r == self@.active,
    {
        self.listener.is_some()
    }

    /// Records the handle of a freshly started listener; any previously
    /// stored handle is dropped, which detaches that task rather than
    /// cancelling it.
    pub fn store_listener(&mut self, handle: tokio::task::JoinHandle<()>)
        ensures
            final(self)@.active,
            final(self)@.pending == old(self)@.pending,
    {
        self.listener = Some(handle);
    }

    /// Removes and returns the stored listener handle, if any.
    pub fn take_listener(&mut self) -> (r: Option<tokio::task::JoinHandle<()>>)
        ensures
            !final(self)@.active,
            final(self)@.pending == old(self)@.pending,
            r is Some <==> old(self)@.active,
    {
        self.listener.take()
    }
}

} // verus!
