//! An application without a surface.
//!
//! `HeadlessApp` implements the full capability contract over nothing but
//! the size state and a set of counters. It stands in for a real
//! graphics-backed application wherever one is unavailable or unwanted: it
//! drives the coordinator in tests, and its counters make the coordinator's
//! behaviour observable — how often it updated, rendered, reconfigured, and
//! asked for another redraw. A ghost log keeps every call in order, which
//! is what the capability contract's call-log clauses are proved against.
//! A scripted fault lets a test or a demonstration make one render fail
//! exactly the way a real backend would.

use vstd::prelude::*;
use crate::action::{AppCall, WgpuAppAction};
use crate::coalescer::ResizeCoalescer;
use crate::event::{
    CursorPosition, DeviceInput, ElementState, KeyInput, MouseButton, SurfaceErrorKind, TouchPhase,
    WheelDelta,
};
use crate::size::Size;

verus! {

/// Adds one, sticking at the maximum instead of wrapping.
fn saturating_inc(count: u64) -> (bumped: u64)
    ensures
        bumped == if count < u64::MAX { count + 1 } else { count as int },
{
    if count < u64::MAX {
        count + 1
    } else {
        count
    }
}

/// An application that tracks its size state and counts the calls it
/// receives, with no surface behind it.
pub struct HeadlessApp {
    /// The size state, exactly as a surface-backed application would keep it.
    pub size: ResizeCoalescer,
    /// A fault to report from the next render, scripted from outside.
    pub next_render_error: Option<SurfaceErrorKind>,
    /// How many update steps ran.
    pub update_count: u64,
    /// The `dt` of the most recent update step.
    pub last_dt_ms: u64,
    /// How many renders were attempted on a presentable surface.
    pub render_count: u64,
    /// How many renders were suppressed by a zero-sized surface.
    pub suppressed_count: u64,
    /// How many times the surface was reconfigured.
    pub reconfigure_count: u64,
    /// How many input events of any kind arrived.
    pub input_count: u64,
    /// How many pre-present hand-shakes arrived.
    pub pre_present_count: u64,
    /// How many redraws were requested.
    pub redraw_request_count: u64,
    /// Every call received through the capability contract, in order.
    pub calls: Ghost<Seq<AppCall>>,
}

impl HeadlessApp {
    /// A fresh application whose surface is configured at `initial`.
    pub fn new(initial: Size) -> (app: HeadlessApp)
        ensures
            app.inv(),
            app.size == (ResizeCoalescer { configured: initial, desired: initial, dirty: false }),
            app.next_render_error is None,
            app.update_count == 0,
            app.render_count == 0,
            app.reconfigure_count == 0,
            app.redraw_request_count == 0,
            app.call_log() == Seq::<AppCall>::empty(),
    {
        HeadlessApp {
            size: ResizeCoalescer::new(initial),
            next_render_error: None,
            update_count: 0,
            last_dt_ms: 0,
            render_count: 0,
            suppressed_count: 0,
            reconfigure_count: 0,
            input_count: 0,
            pre_present_count: 0,
            redraw_request_count: 0,
            calls: Ghost(Seq::empty()),
        }
    }

    /// Scripts the next render to fail with `kind`, as a real backend would.
    pub fn inject_render_error(&mut self, kind: SurfaceErrorKind)
        ensures
            *final(self) == (HeadlessApp { next_render_error: Some(kind), ..*old(self) }),
    {
        self.next_render_error = Some(kind);
    }
}

impl WgpuAppAction for HeadlessApp {
    open spec fn inv(&self) -> bool {
        self.size.wf()
    }

    open spec fn size_state(&self) -> ResizeCoalescer {
        self.size
    }

    open spec fn call_log(&self) -> Seq<AppCall> {
        self.calls@
    }

    fn set_window_resized(&mut self, new_size: Size) {
        self.size.set_window_resized(new_size);
        self.calls = Ghost(self.calls@.push(AppCall::SetWindowResized(new_size)));
    }

    fn get_size(&self) -> (size: Size) {
        self.size.current_size()
    }

    fn update(&mut self, dt_ms: u64) {
        self.last_dt_ms = dt_ms;
        self.update_count = saturating_inc(self.update_count);
        self.calls = Ghost(self.calls@.push(AppCall::Update(dt_ms)));
    }

    fn render(&mut self) -> (result: Result<(), SurfaceErrorKind>) {
        self.calls = Ghost(self.calls@.push(AppCall::Render));
        if self.size.desired.has_zero_dimension() {
            self.suppressed_count = saturating_inc(self.suppressed_count);
            return Ok(());
        }
        let reconfigure = self.size.resize_surface_if_needed();
        if reconfigure.is_some() {
            self.reconfigure_count = saturating_inc(self.reconfigure_count);
        }
        self.render_count = saturating_inc(self.render_count);
        let fault = self.next_render_error;
        self.next_render_error = None;
        match fault {
            Some(kind) => {
                if matches!(kind, SurfaceErrorKind::Lost | SurfaceErrorKind::Outdated) {
                    self.size.force_reconfigure();
                }
                Err(kind)
            },
            None => Ok(()),
        }
    }

    fn keyboard_input(&mut self, event: &KeyInput) -> (consumed: bool) {
        self.input_count = saturating_inc(self.input_count);
        self.calls = Ghost(self.calls@.push(AppCall::Keyboard(*event)));
        false
    }

    fn mouse_click(&mut self, state: ElementState, button: MouseButton) -> (consumed: bool) {
        self.input_count = saturating_inc(self.input_count);
        self.calls = Ghost(self.calls@.push(AppCall::MouseClick(state, button)));
        false
    }

    fn mouse_wheel(&mut self, delta: WheelDelta, phase: TouchPhase) -> (consumed: bool) {
        self.input_count = saturating_inc(self.input_count);
        self.calls = Ghost(self.calls@.push(AppCall::MouseWheel(delta, phase)));
        false
    }

    fn cursor_move(&mut self, position: CursorPosition) -> (consumed: bool) {
        self.input_count = saturating_inc(self.input_count);
        self.calls = Ghost(self.calls@.push(AppCall::CursorMove(position)));
        false
    }

    fn device_input(&mut self, event: &DeviceInput) -> (consumed: bool) {
        self.input_count = saturating_inc(self.input_count);
        self.calls = Ghost(self.calls@.push(AppCall::Device(*event)));
        false
    }

    fn pre_present_notify(&mut self) {
        self.pre_present_count = saturating_inc(self.pre_present_count);
        self.calls = Ghost(self.calls@.push(AppCall::PrePresentNotify));
    }

    fn request_redraw(&mut self) {
        self.redraw_request_count = saturating_inc(self.redraw_request_count);
        self.calls = Ghost(self.calls@.push(AppCall::RequestRedraw));
    }
}

} // verus!
