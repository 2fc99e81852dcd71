use vstd::prelude::*;

verus! {

/// The three presentation modes; exactly one is active at a time. Pure UI
/// routing state: it gates which consumer logic runs and never touches the
/// data.
#[derive(Clone, Copy, PartialEq, Eq, Structural, Debug)]
pub enum ViewMode {
    Dashboard,
    Realtime,
    History,
}

/// Tracks the active presentation mode. Any mode may follow any other, but
/// only on an explicit external selection: there are no automatic
/// transitions and no terminal state.
pub struct ViewState {
    active: ViewMode,
}

impl ViewState {
    /// The mode currently active.
    pub closed spec fn spec_active(&self) -> ViewMode {
        self.active
    }

    /// The initial state: the dashboard is shown first.
    pub fn new() -> (s: ViewState)
        ensures
            s.spec_active() == ViewMode::Dashboard,
    {
        ViewState { active: ViewMode::Dashboard }
    }

    /// Which mode is active.
    pub fn active_view(&self) -> (m: ViewMode)
        ensures
            m == self.spec_active(),
    {
        self.active
    }

    /// Select a mode explicitly; the selection alone decides the new state.
    pub fn set_view(&mut self, mode: ViewMode)
        ensures
            final(self).spec_active() == mode,
    {
        self.active = mode;
    }
}

} // verus!
