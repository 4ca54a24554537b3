//! Tracking of values whose GPU-resident mirror is out of date.

use vstd::prelude::*;

verus! {

/// Records whether the authoritative CPU-side value changed since its GPU
/// mirror was last written.
#[derive(Clone, Copy, Debug, PartialEq, Eq, Structural)]
pub struct DirtyFlag {
    dirty: bool,
}

impl View for DirtyFlag {
    type V = bool;

    closed spec fn view(&self) -> bool {
        self.dirty
    }
}

/// State of a flag after `mark`, whatever it was before.
pub open spec fn marked_state(state: bool) -> bool {
    true
}

/// What `check_and_clear` returns from a flag in `state`, and the state it
/// leaves behind.
pub open spec fn check_and_clear_step(state: bool) -> (bool, bool) {
    (state, false)
}

impl DirtyFlag {
    /// A flag that does not ask for an upload.
    pub fn new() -> (r: DirtyFlag)
        ensures
            !r@,
    {
        DirtyFlag { dirty: false }
    }

    /// Note that the tracked value changed.
    pub fn mark(&mut self)
        ensures
            final(self)@ == marked_state(old(self)@),
    {
        self.dirty = true;
    }

    /// Whether an upload is pending, without clearing it.
    pub fn is_marked(&self) -> (r: bool)
        ensures
            r == self@,
    {
        self.dirty
    }

    /// Return whether an upload is pending and clear the flag: the caller
    /// issues the upload exactly when `true` comes back.
    pub fn check_and_clear(&mut self) -> (r: bool)
        ensures
            (r, final(self)@) == check_and_clear_step(old(self)@),
    {
        let was = self.dirty;
        self.dirty = false;
        was
    }
}

/// After one `mark`, two calls of `check_and_clear` in a row return `true`
/// and then `false`: each change is uploaded exactly once.
pub proof fn lemma_cleared_exactly_once(state: bool)
    ensures
        ({
            let first = check_and_clear_step(marked_state(state));
            let second = check_and_clear_step(first.1);
            first.0 && !second.0
        }),
{
}

} // verus!
