//! The render state and the event-driven step function of the render loop.
//!
//! The state holds what one iteration of the loop reads and writes: the
//! clear color, the running flag, and a description of the current output
//! target. Per iteration the loop applies every polled event to the state
//! and, if the state is still running, draws one frame; the draw itself is
//! performed by the unverified shell from the returned [`DrawCommand`].

use vstd::prelude::*;

use crate::event::Event;
use crate::event::TouchPhase;
use crate::event::event_accepted;
use crate::event::quiet_event;
use crate::event::stop_event;

verus! {

/// An RGBA color with unit components: each field is 0 or 1 and stands for
/// the same component of an RGBA color with intensity 0.0 or 1.0.
#[derive(Clone, Copy, Debug, PartialEq, Eq, Structural)]
pub struct Color {
    pub r: u8,
    pub g: u8,
    pub b: u8,
    pub a: u8,
}

/// The clear color set by a touch-start event.
pub open spec fn red() -> Color {
    Color { r: 1, g: 0, b: 0, a: 1 }
}

/// The clear color set by a touch-end event.
pub open spec fn green() -> Color {
    Color { r: 0, g: 1, b: 0, a: 1 }
}

/// The clear color the state starts with.
pub open spec fn blue() -> Color {
    Color { r: 0, g: 0, b: 1, a: 1 }
}

/// A description of the output render target: its dimensions in pixels and
/// an identifier that is fresh for every target ever created, so that two
/// targets of equal size are still told apart. A resize replaces the stored
/// target with a new one.
#[derive(Clone, Copy, Debug, PartialEq, Eq, Structural)]
pub struct OutputTarget {
    pub width: u32,
    pub height: u32,
    pub id: u64,
}

/// Everything one draw call needs from the state: the target to write into
/// and the color to clear it to. The static geometry, pipeline and texture
/// never change after startup and need no place here.
#[derive(Clone, Copy, Debug, PartialEq, Eq, Structural)]
pub struct DrawCommand {
    pub target: OutputTarget,
    pub clear_color: Color,
}

/// The mutable render state: the clear color, the running flag, and the
/// current output target. Only event handling mutates it.
#[derive(Clone, Copy, Debug, PartialEq, Eq, Structural)]
pub struct Visualizer {
    pub clear_color: Color,
    pub is_running: bool,
    pub target: OutputTarget,
}

/// The state a freshly created visualizer is in: blue clear color, running,
/// with an output target of the window's initial dimensions.
pub open spec fn initial_state(width: u32, height: u32) -> Visualizer {
    Visualizer {
        clear_color: blue(),
        is_running: true,
        target: OutputTarget { width: width, height: height, id: 0 },
    }
}

/// What one event does to the state. A close or exit-key press stops the
/// machine; a resize replaces the output target with a fresh one of the new
/// dimensions; a touch start or end sets the clear color; everything else
/// leaves the state as it is.
pub open spec fn step_event(s: Visualizer, e: Event) -> Visualizer {
    match e {
        Event::Closed => Visualizer { is_running: false, ..s },
        Event::ExitKeyPressed => Visualizer { is_running: false, ..s },
        Event::Resized(w, h) => Visualizer {
            target: OutputTarget { width: w, height: h, id: (s.target.id + 1) as u64 },
            ..s
        },
        Event::Touch(TouchPhase::Started) => Visualizer { clear_color: red(), ..s },
        Event::Touch(TouchPhase::Ended) => Visualizer { clear_color: green(), ..s },
        Event::Touch(TouchPhase::Moved) => s,
        Event::Touch(TouchPhase::Cancelled) => s,
        Event::Other => s,
    }
}

/// The state after a whole batch of events, applied in order.
pub open spec fn step_events(s: Visualizer, es: Seq<Event>) -> Visualizer
    decreases es.len(),
{
    if es.len() == 0 {
        s
    } else {
        step_event(step_events(s, es.drop_last()), es.last())
    }
}

/// How many resize events a batch holds; each one gives the output target
/// a fresh identifier.
pub open spec fn resize_count(es: Seq<Event>) -> nat
    decreases es.len(),
{
    if es.len() == 0 {
        0
    } else {
        resize_count(es.drop_last()) + (if es.last() is Resized { 1nat } else { 0nat })
    }
}

impl Visualizer {
    /// Creates the initial render state for a window of the given size.
    pub fn new(width: u32, height: u32) -> (v: Visualizer)
        ensures
            v == initial_state(width, height),
    {
        Visualizer {
            clear_color: Color { r: 0, g: 0, b: 1, a: 1 },
            is_running: true,
            target: OutputTarget { width: width, height: height, id: 0 },
        }
    }

    /// Applies one event to the state.
    ///
    /// A cancelled touch is excluded: its handling is deliberately left
    /// unimplemented, and a caller that meets one must fail instead of
    /// calling in. The bound on the target identifier is a machine limit;
    /// the identifier grows by one per resize.
    pub fn handle_event(&mut self, event: &Event)
        requires
            event_accepted(*event),
            *event is Resized ==> old(self).target.id < u64::MAX,
        ensures
            *final(self) == step_event(*old(self), *event),
    {
        match *event {
            Event::Closed => {
                self.is_running = false;
            }
            Event::ExitKeyPressed => {
                self.is_running = false;
            }
            Event::Resized(w, h) => {
                let id = self.target.id + 1;
                self.target = OutputTarget { width: w, height: h, id: id };
            }
            Event::Touch(TouchPhase::Started) => {
                self.clear_color = Color { r: 1, g: 0, b: 0, a: 1 };
            }
            Event::Touch(TouchPhase::Ended) => {
                self.clear_color = Color { r: 0, g: 1, b: 0, a: 1 };
            }
            Event::Touch(TouchPhase::Moved) => {
                // A moved touch only gets a diagnostic line, printed by the shell.
            }
            Event::Touch(TouchPhase::Cancelled) => {
                // Unreachable under the precondition.
            }
            Event::Other => {}
        }
    }

    /// Applies a whole batch of polled events to the state, in order.
    pub fn handle_events(&mut self, events: &Vec<Event>)
        requires
            forall|i: int| 0 <= i < events@.len() ==> event_accepted(events@[i]),
            old(self).target.id + resize_count(events@) <= u64::MAX,
        ensures
            *final(self) == step_events(*old(self), events@),
    {
        let ghost s0 = *self;
        let ghost es = events@;
        let n = events.len();
        let mut i: usize = 0;
        while i < n
            invariant
                i <= n,
                n == es.len(),
                es == events@,
                forall|j: int| 0 <= j < es.len() ==> event_accepted(es[j]),
                s0.target.id + resize_count(es) <= u64::MAX,
                *self == step_events(s0, es.subrange(0, i as int)),
            decreases n - i,
        {
            proof {
                lemma_step_events_id_bound(s0, es.subrange(0, i as int));
                lemma_resize_count_prefix_le(es, i as int + 1);
                assert(es.subrange(0, i as int + 1).drop_last() =~= es.subrange(0, i as int));
            }
            self.handle_event(&events[i]);
            i = i + 1;
        }
        proof {
            assert(es.subrange(0, n as int) =~= es);
        }
    }

    /// Says whether the loop should keep running.
    pub fn is_running(&self) -> (r: bool)
        ensures
            r == self.is_running,
    {
        self.is_running
    }

    /// Describes the one draw call of the current iteration: it clears the
    /// currently stored output target to the current clear color. Only a
    /// running state draws.
    pub fn draw_command(&self) -> (cmd: DrawCommand)
        requires
            self.is_running,
        ensures
            cmd.target == self.target,
            cmd.clear_color == self.clear_color,
    {
        DrawCommand { target: self.target, clear_color: self.clear_color }
    }

    /// One iteration of the render loop: applies the polled batch of events
    /// and, exactly when the state is still running afterwards, hands back
    /// the draw command for this frame. `None` means the loop stops without
    /// drawing again.
    pub fn tick(&mut self, events: &Vec<Event>) -> (cmd: Option<DrawCommand>)
        requires
            forall|i: int| 0 <= i < events@.len() ==> event_accepted(events@[i]),
            old(self).target.id + resize_count(events@) <= u64::MAX,
        ensures
            *final(self) == step_events(*old(self), events@),
            cmd is Some <==> final(self).is_running,
            cmd matches Some(c) ==> c.target == final(self).target
                && c.clear_color == final(self).clear_color,
    {
        self.handle_events(events);
        if self.is_running() {
            Some(self.draw_command())
        } else {
            None
        }
    }
}

/// The target identifier grows by at most one per resize event in the batch,
/// and by nothing else.
pub proof fn lemma_step_events_id_bound(s: Visualizer, es: Seq<Event>)
    ensures
        step_events(s, es).target.id <= s.target.id + resize_count(es),
    decreases es.len(),
{
    if es.len() > 0 {
        lemma_step_events_id_bound(s, es.drop_last());
    }
}

/// A prefix of a batch holds at most as many resize events as the batch.
pub proof fn lemma_resize_count_prefix_le(es: Seq<Event>, i: int)
    requires
        0 <= i <= es.len(),
    ensures
        resize_count(es.subrange(0, i)) <= resize_count(es),
    decreases es.len() - i,
{
    if i == es.len() {
        assert(es.subrange(0, i) =~= es);
    } else {
        lemma_resize_count_prefix_le(es, i + 1);
        assert(es.subrange(0, i + 1).drop_last() =~= es.subrange(0, i));
    }
}

/// A batch of events that holds no close, no exit-key press and no resize
/// leaves the output target exactly as it was: the same dimensions and the
/// very same target identifier.
pub proof fn lemma_quiet_events_preserve_target(s: Visualizer, es: Seq<Event>)
    requires
        forall|i: int| 0 <= i < es.len() ==> quiet_event(es[i]),
    ensures
        step_events(s, es).target == s.target,
    decreases es.len(),
{
    if es.len() > 0 {
        assert(forall|i: int|
            0 <= i < es.drop_last().len() ==> quiet_event(#[trigger] es.drop_last()[i]));
        lemma_quiet_events_preserve_target(s, es.drop_last());
        assert(quiet_event(es.last()));
    }
}

/// After a resize event to dimensions (w, h) with no later resize in the
/// batch, the stored output target has exactly those dimensions.
pub proof fn lemma_last_resize_sets_dimensions(
    s: Visualizer,
    es: Seq<Event>,
    i: int,
    w: u32,
    h: u32,
)
    requires
        forall|j: int| 0 <= j < es.len() ==> event_accepted(es[j]),
        0 <= i < es.len(),
        es[i] == Event::Resized(w, h),
        forall|j: int| i < j < es.len() ==> !(es[j] is Resized),
    ensures
        step_events(s, es).target.width == w,
        step_events(s, es).target.height == h,
    decreases es.len(),
{
    if i == es.len() - 1 {
        assert(es.last() == Event::Resized(w, h));
    } else {
        assert(forall|j: int|
            0 <= j < es.drop_last().len() ==> event_accepted(#[trigger] es.drop_last()[j]));
        assert(forall|j: int|
            i < j < es.drop_last().len() ==> !(#[trigger] es.drop_last()[j] is Resized));
        lemma_last_resize_sets_dimensions(s, es.drop_last(), i, w, h);
        assert(!(es.last() is Resized));
    }
}

/// A stopped state stays stopped: no event sets the running flag again.
pub proof fn lemma_stopped_stays_stopped(s: Visualizer, es: Seq<Event>)
    requires
        !s.is_running,
    ensures
        !step_events(s, es).is_running,
    decreases es.len(),
{
    if es.len() > 0 {
        lemma_stopped_stays_stopped(s, es.drop_last());
    }
}

/// A close or exit-key event anywhere in a polled batch leaves the machine
/// stopped once the whole batch is processed; `tick` then returns no draw
/// command, so no further frame is drawn.
pub proof fn lemma_stop_event_stops_loop(s: Visualizer, es: Seq<Event>, i: int)
    requires
        forall|j: int| 0 <= j < es.len() ==> event_accepted(es[j]),
        0 <= i < es.len(),
        stop_event(es[i]),
    ensures
        !step_events(s, es).is_running,
    decreases es.len(),
{
    if i == es.len() - 1 {
        assert(stop_event(es.last()));
    } else {
        assert(forall|j: int|
            0 <= j < es.drop_last().len() ==> event_accepted(#[trigger] es.drop_last()[j]));
        lemma_stop_event_stops_loop(s, es.drop_last(), i);
    }
}

/// After a touch-start event the clear color is red; a touch-move leaves it
/// unchanged; a touch-end event makes it green.
pub proof fn lemma_touch_colors(s: Visualizer)
    ensures
        step_event(s, Event::Touch(TouchPhase::Started)).clear_color == red(),
        step_event(s, Event::Touch(TouchPhase::Moved)).clear_color == s.clear_color,
        step_event(s, Event::Touch(TouchPhase::Ended)).clear_color == green(),
{
}

} // verus!
