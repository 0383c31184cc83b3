//! The top-level UI-mode state machine: which screen the application is on,
//! with a single-slot memory of the previous screen.

use vstd::prelude::*;

verus! {

/// The four screens the application can show.
#[derive(Debug, Clone, Copy, PartialEq, Eq, Structural)]
pub enum AppState {
    Testing,
    Results,
    History,
    Stats,
}

/// Tracks the current screen and remembers the one before it.
///
/// Any screen may follow any screen; which transitions are actually taken is
/// decided by the input handler's action set, not here.
pub struct StateMachine {
    current: AppState,
    previous: Option<AppState>,
}

impl StateMachine {
    /// The screen currently shown.
    pub closed spec fn spec_current(&self) -> AppState {
        self.current
    }

    /// The screen shown before the last transition, if any.
    pub closed spec fn spec_previous(&self) -> Option<AppState> {
        self.previous
    }

    pub fn new(initial: AppState) -> (r: Self)
        ensures
            r.spec_current() == initial,
            r.spec_previous() is None,
    {
        Self { current: initial, previous: None }
    }

    pub fn current(&self) -> (r: AppState)
        ensures
            r == self.spec_current(),
    {
        self.current
    }

    pub fn transition(&mut self, new_state: AppState)
        ensures
            final(self).spec_current() == new_state,
            final(self).spec_previous() == Some(old(self).spec_current()),
    {
        self.previous = Some(self.current);
        self.current = new_state;
    }
}

} // verus!
