//! The render-loop controller: the state the event loop carries between
//! dispatches, and the decisions taken on each event.
//!
//! The operating-system event loop, the UI toolkit and the graphics surface
//! live outside this crate; the loop body hands each event to the controller
//! and performs the actions the controller decides. The controller tracks
//! the resolved geometry, the surface's current live size, the latest
//! desktop state delivered by the bridge, and whether the process is
//! shutting down. A render pass is bracketed by the loop: it asks the
//! controller for the render input, runs the toolkit, then hands the rounded
//! measurement and the suggested delay back to [`Controller::render_pass`]
//! for the resize and scheduling decisions.

use vstd::prelude::*;

use crate::bridge::DesktopState;
use crate::geometry::SurfaceGeometry;
use crate::schedule::RepaintDecision;
use crate::schedule::schedule_repaint;
use crate::schedule::schedule_spec;
use crate::sizing::decide_resize;
use crate::sizing::decide_resize_spec;

verus! {

/// An operating-system window event, reduced to what the bar reacts to.
#[derive(Clone, Copy, Debug, PartialEq, Eq)]
pub enum WindowEvent {
    /// The user or the window manager asked the window to close.
    CloseRequested,
    /// The window is gone.
    Destroyed,
    /// The window's size changed; the new size in pixels.
    Resized(u32, u32),
    /// The scale factor changed and the window was given this new size.
    ScaleFactorChanged(u32, u32),
    /// Any other window event: only forwarded to the toolkit.
    Other,
}

/// Where the loop stands between dispatches. A render pass runs within one
/// dispatch, so only the resting states are stored.
#[derive(Clone, Copy, Debug, PartialEq, Eq, Structural)]
pub enum Phase {
    /// Waiting for the next scheduled wake-up or external event.
    Idle,
    /// A close was requested; the loop is on its way out.
    ShuttingDown,
}

/// The render loop's own state.
#[derive(Clone, Debug, PartialEq, Eq)]
pub struct Controller {
    /// The geometry resolved once at startup; read-only afterwards.
    pub geometry: SurfaceGeometry,
    /// The surface's current live width, as last reported by the system.
    pub surface_w: u32,
    /// The surface's current live height, as last reported by the system.
    pub surface_h: u32,
    /// The most recently delivered desktop state; `None` until the bridge
    /// has delivered once.
    pub latest: Option<DesktopState>,
    /// Whether the loop is still serving events or shutting down.
    pub phase: Phase,
}

/// The actions the loop must perform after handing in a window event.
#[derive(Clone, Copy, Debug, PartialEq, Eq)]
pub struct EventResponse {
    /// Tear down the UI toolkit's resources.
    pub destroy_toolkit: bool,
    /// Re-synchronize the surface/toolkit to this size, accepted as fact.
    pub sync_surface: Option<(u32, u32)>,
    /// Hand the raw event on to the toolkit.
    pub forward_to_toolkit: bool,
    /// Ask the window for a redraw: every event invalidates the schedule.
    pub request_redraw: bool,
}

/// What one render pass decides: whether to resize the surface, and when to
/// repaint next.
#[derive(Clone, Copy, Debug, PartialEq, Eq)]
pub struct RenderPassOutput {
    /// The size to request for the surface, if it must change.
    pub resize_request: Option<(u32, u32)>,
    /// The next wake-up.
    pub schedule: RepaintDecision,
}

/// The controller after a bridge delivery: only the latest state changes,
/// and it becomes the delivered snapshot.
pub open spec fn deliver_spec(c: Controller, state: DesktopState) -> Controller {
    Controller { latest: Some(state), ..c }
}

/// The controller after a window event: a close moves the phase to
/// `ShuttingDown`; a reported size is recorded as the live surface size;
/// anything else changes nothing.
pub open spec fn window_event_state_spec(c: Controller, event: WindowEvent) -> Controller {
    match event {
        WindowEvent::CloseRequested => Controller { phase: Phase::ShuttingDown, ..c },
        WindowEvent::Destroyed => Controller { phase: Phase::ShuttingDown, ..c },
        WindowEvent::Resized(w, h) => Controller { surface_w: w, surface_h: h, ..c },
        WindowEvent::ScaleFactorChanged(w, h) => Controller { surface_w: w, surface_h: h, ..c },
        WindowEvent::Other => c,
    }
}

/// The actions owed for a window event: tear down on a close, re-synchronize
/// on a reported size, and in every case forward the event and request a
/// redraw.
pub open spec fn window_event_response_spec(event: WindowEvent) -> EventResponse {
    EventResponse {
        destroy_toolkit: event is CloseRequested || event is Destroyed,
        sync_surface: match event {
            WindowEvent::Resized(w, h) => Some((w, h)),
            WindowEvent::ScaleFactorChanged(w, h) => Some((w, h)),
            _ => None,
        },
        forward_to_toolkit: true,
        request_redraw: true,
    }
}

impl Controller {
    /// A fresh controller for a surface created at `initial_w × initial_h`
    /// from the resolved geometry: idle, with no desktop state delivered yet.
    pub fn new(geometry: SurfaceGeometry, initial_w: u32, initial_h: u32) -> (c: Controller)
        ensures
            c == (Controller {
                geometry,
                surface_w: initial_w,
                surface_h: initial_h,
                latest: None,
                phase: Phase::Idle,
            }),
    {
        Controller { geometry, surface_w: initial_w, surface_h: initial_h, latest: None, phase: Phase::Idle }
    }

    /// Record a bridge delivery: the delivered snapshot supersedes whatever
    /// was held before, read or not.
    pub fn handle_state_delivered(&mut self, state: DesktopState)
        ensures
            *final(self) == deliver_spec(*old(self), state),
    {
        self.latest = Some(state);
    }

    /// The desktop state a render pass draws from: always the most recently
    /// delivered snapshot.
    pub fn render_input(&self) -> (r: &Option<DesktopState>)
        ensures
            *r == self.latest,
    {
        &self.latest
    }

    /// Record the surface's current live size, freshly read back from the
    /// windowing system — typically right before a render pass, so the
    /// resize decision compares against what the surface really is, not
    /// what was last requested.
    pub fn sync_surface_size(&mut self, w: u32, h: u32)
        ensures
            *final(self) == (Controller { surface_w: w, surface_h: h, ..*old(self) }),
    {
        self.surface_w = w;
        self.surface_h = h;
    }

    /// Dispatch one window event: update the tracked state and return the
    /// actions the loop must perform.
    pub fn handle_window_event(&mut self, event: &WindowEvent) -> (r: EventResponse)
        ensures
            *final(self) == window_event_state_spec(*old(self), *event),
            r == window_event_response_spec(*event),
    {
        let mut destroy_toolkit = false;
        let mut sync_surface: Option<(u32, u32)> = None;
        match event {
            WindowEvent::CloseRequested | WindowEvent::Destroyed => {
                self.phase = Phase::ShuttingDown;
                destroy_toolkit = true;
            },
            WindowEvent::Resized(w, h) | WindowEvent::ScaleFactorChanged(w, h) => {
                self.surface_w = *w;
                self.surface_h = *h;
                sync_surface = Some((*w, *h));
            },
            WindowEvent::Other => {},
        }
        EventResponse { destroy_toolkit, sync_surface, forward_to_toolkit: true, request_redraw: true }
    }

    /// Close one render pass: decide the resize from the rounded content
    /// measurement (`None` when nothing was measured) against the surface's
    /// current live size, and arm the next repaint from the toolkit's
    /// suggested delay. The controller itself is untouched — the tracked
    /// live size only moves when the windowing system reports one, through
    /// a size event or [`Controller::sync_surface_size`].
    pub fn render_pass(&self, measured: Option<(u32, u32)>, suggested_delay_ns: u64) -> (r:
        RenderPassOutput)
        ensures
            measured matches Some(m) ==> r.resize_request == decide_resize_spec(
                self.geometry,
                m.0,
                m.1,
                self.surface_w,
                self.surface_h,
            ),
            measured is None ==> r.resize_request is None,
            r.schedule == schedule_spec(suggested_delay_ns),
    {
        let resize_request: Option<(u32, u32)> = match measured {
            Some((mw, mh)) => decide_resize(&self.geometry, mw, mh, self.surface_w, self.surface_h),
            None => None,
        };
        RenderPassOutput { resize_request, schedule: schedule_repaint(suggested_delay_ns) }
    }
}

/// One input to the dispatch loop that touches the controller: a window
/// event, or a snapshot delivered by the bridge.
#[derive(Clone, Debug, PartialEq, Eq)]
pub enum LoopInput {
    Window(WindowEvent),
    Delivered(DesktopState),
}

/// The controller after one loop input.
pub open spec fn apply_input_spec(c: Controller, input: LoopInput) -> Controller {
    match input {
        LoopInput::Window(e) => window_event_state_spec(c, e),
        LoopInput::Delivered(s) => deliver_spec(c, s),
    }
}

/// The controller after a whole history of loop inputs, oldest first.
pub open spec fn apply_inputs_spec(c: Controller, inputs: Seq<LoopInput>) -> Controller
    decreases inputs.len(),
{
    if inputs.len() == 0 {
        c
    } else {
        apply_input_spec(apply_inputs_spec(c, inputs.drop_last()), inputs.last())
    }
}

/// Whatever else the loop dispatched, the render input after a history of
/// inputs is the snapshot of the history's last delivery — never an older
/// one.
pub proof fn lemma_render_input_is_last_delivery(
    c: Controller,
    inputs: Seq<LoopInput>,
    i: int,
    s: DesktopState,
)
    requires
        0 <= i < inputs.len(),
        inputs[i] == LoopInput::Delivered(s),
        forall|j: int| i < j < inputs.len() ==> !((#[trigger] inputs[j]) is Delivered),
    ensures
        apply_inputs_spec(c, inputs).latest == Some(s),
    decreases inputs.len(),
{
    if i == inputs.len() - 1 {
        assert(inputs.last() == LoopInput::Delivered(s));
    } else {
        assert(inputs.drop_last()[i] == inputs[i]);
        lemma_render_input_is_last_delivery(c, inputs.drop_last(), i, s);
        assert(!(inputs.last() is Delivered));
    }
}

/// A history without any delivery leaves the render input untouched.
pub proof fn lemma_no_delivery_keeps_render_input(c: Controller, inputs: Seq<LoopInput>)
    requires
        forall|j: int| 0 <= j < inputs.len() ==> !((#[trigger] inputs[j]) is Delivered),
    ensures
        apply_inputs_spec(c, inputs).latest == c.latest,
    decreases inputs.len(),
{
    if inputs.len() > 0 {
        lemma_no_delivery_keeps_render_input(c, inputs.drop_last());
    }
}

/// The resolved geometry is a startup constant: neither a delivery nor a
/// window event changes it — only the live surface size, the latest state
/// and the phase ever move.
pub proof fn lemma_geometry_read_only(c: Controller, s: DesktopState, e: WindowEvent)
    ensures
        deliver_spec(c, s).geometry == c.geometry,
        window_event_state_spec(c, e).geometry == c.geometry,
{
}

/// The latest delivery wins: after delivering `s1` and then `s2`, the render
/// input is `s2` — never the older `s1` — and no window event moves it, so
/// only a new delivery ever changes what a pass draws from.
pub proof fn lemma_latest_delivery_wins(c: Controller, s1: DesktopState, s2: DesktopState)
    ensures
        deliver_spec(c, s1).latest == Some(s1),
        deliver_spec(deliver_spec(c, s1), s2).latest == Some(s2),
        forall|e: WindowEvent| (#[trigger] window_event_state_spec(c, e)).latest == c.latest,
{
}

} // verus!
