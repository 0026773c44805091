//! State for the global key listener: whether a modal is open, which
//! decides if global shortcuts may fire.

use vstd::prelude::*;

verus! {

/// Tracks whether a modal dialog is open.
#[derive(Debug, Clone, Copy, PartialEq, Eq, Structural)]
pub struct OwnStates {
    pub modal_open: bool,
}

impl OwnStates {
    /// A listener state with no modal open.
    pub fn new() -> (s: Self)
        ensures
            !s.modal_open,
    {
        Self { modal_open: false }
    }

    /// Record whether a modal is now open.
    pub fn set_modal_state(&mut self, state: bool)
        ensures
            final(self).modal_open == state,
    {
        self.modal_open = state;
    }
}

} // verus!
