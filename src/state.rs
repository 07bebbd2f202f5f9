//! The drawing state machine: whether input is accepted, and which entity a
//! new drag redraws.

use vstd::prelude::*;

verus! {

/// Whether drawing is on, and what the next drag draws into.
#[derive(Clone, Copy, Debug, PartialEq, Eq, Structural)]
pub enum DrawingState {
    /// Input is accepted. With `None` the next drag creates a new box; with
    /// `Some(e)` it redraws the box of entity `e`.
    Idle(Option<u64>),
    /// Input is ignored.
    Disabled,
}

/// A request that changes the drawing state.
#[derive(Clone, Copy, Debug, PartialEq, Eq, Structural)]
pub enum DrawStateEvent {
    Enable,
    /// Enables drawing if disabled, and makes the next drag redraw this entity.
    Redraw(u64),
    Disable,
}

impl DrawingState {
    /// Drawing starts disabled.
    pub open spec fn initial() -> DrawingState {
        DrawingState::Disabled
    }

    pub open spec fn is_disabled(self) -> bool {
        self is Disabled
    }
}

impl Default for DrawingState {
    fn default() -> (r: DrawingState)
        ensures
            r == DrawingState::initial(),
    {
        DrawingState::Disabled
    }
}

/// The state that a request leads to, whatever the state before it.
pub open spec fn requested(ev: DrawStateEvent) -> DrawingState {
    match ev {
        DrawStateEvent::Enable => DrawingState::Idle(None),
        DrawStateEvent::Redraw(e) => DrawingState::Idle(Some(e)),
        DrawStateEvent::Disable => DrawingState::Disabled,
    }
}

/// The state after handling `reqs` in order from `s`: each request sets the
/// state outright, so the last one decides.
pub open spec fn state_after(s: DrawingState, reqs: Seq<DrawStateEvent>) -> DrawingState {
    if reqs.len() == 0 {
        s
    } else {
        requested(reqs.last())
    }
}

/// The request that keeps drawing available: `Enable` whenever the state is
/// found disabled.
pub open spec fn keep_enabled_request(s: DrawingState) -> Option<DrawStateEvent> {
    if s.is_disabled() {
        Some(DrawStateEvent::Enable)
    } else {
        None
    }
}

/// Handles one request.
pub fn apply_request(state: &mut DrawingState, req: DrawStateEvent)
    ensures
        *final(state) == requested(req),
{
    *state = match req {
        DrawStateEvent::Enable => DrawingState::Idle(None),
        DrawStateEvent::Redraw(e) => DrawingState::Idle(Some(e)),
        DrawStateEvent::Disable => DrawingState::Disabled,
    };
}

/// Handles the pending requests in their order of arrival.
pub fn draw_state(state: &mut DrawingState, reqs: &Vec<DrawStateEvent>)
    ensures
        *final(state) == state_after(*old(state), reqs@),
{
    let n = reqs.len();
    let mut i: usize = 0;
    while i < n
        invariant
            n == reqs@.len(),
            i <= n,
            *state == state_after(*old(state), reqs@.take(i as int)),
        decreases n - i,
    {
        apply_request(state, reqs[i]);
        i = i + 1;
        assert(reqs@.take(i as int).last() == reqs@[i - 1]);
    }
    assert(reqs@.take(n as int) =~= reqs@);
}

/// The request that keeps drawing enabled, if the state needs one.
pub fn keep_enabled(state: &DrawingState) -> (r: Option<DrawStateEvent>)
    ensures
        r == keep_enabled_request(*state),
{
    match state {
        DrawingState::Disabled => Some(DrawStateEvent::Enable),
        DrawingState::Idle(_) => None,
    }
}

} // verus!
