//! The events the render loop reacts to.

use vstd::prelude::*;

verus! {

/// The phase of a touch gesture, as the windowing layer reports it.
#[derive(Clone, Copy, Debug, PartialEq, Eq, Structural)]
pub enum TouchPhase {
    Started,
    Moved,
    Ended,
    Cancelled,
}

/// A window event, reduced to the cases the render loop distinguishes.
/// The unverified shell maps the windowing library's events onto these.
#[derive(Clone, Copy, Debug, PartialEq, Eq, Structural)]
pub enum Event {
    /// The window was closed.
    Closed,
    /// The exit key (escape) was pressed.
    ExitKeyPressed,
    /// The window was resized to the given width and height in pixels.
    Resized(u32, u32),
    /// A touch gesture reached the given phase.
    Touch(TouchPhase),
    /// Any other event; the loop ignores it.
    Other,
}

/// The events the state machine accepts: every event except a cancelled
/// touch. Handling a cancelled touch is deliberately left unimplemented;
/// a caller that meets one must treat it as a fatal logic error.
pub open spec fn event_accepted(e: Event) -> bool {
    !(e matches Event::Touch(TouchPhase::Cancelled))
}

/// An event that stops the loop: a window close or an exit-key press.
pub open spec fn stop_event(e: Event) -> bool {
    e is Closed || e is ExitKeyPressed
}

/// An event that leaves the output target untouched: neither a close,
/// nor an exit-key press, nor a resize, and accepted by the machine.
pub open spec fn quiet_event(e: Event) -> bool {
    &&& event_accepted(e)
    &&& !stop_event(e)
    &&& !(e is Resized)
}

} // verus!
