//! The capability contract between the coordinator and an application.
//!
//! An application owns the graphics device, the surface and all rendering
//! state; the coordinator only needs the handful of entry points declared
//! here. The contract pins down two projections of the application. Its
//! size state — a [`ResizeCoalescer`] value — moves exactly as each entry
//! point allows, so the coordinator's guarantees about buffering,
//! coalescing and recovery hold for every conforming application. Its call
//! log — a ghost [`Seq`] of [`AppCall`] values — grows by exactly the call
//! being made, so the coordinator's contracts can witness that an event
//! really reached the matching handler with its payload, and in what
//! order. Everything an application does beyond these two projections is
//! its own business and is left unconstrained.
//!
//! Acquiring the graphics context is asynchronous and stays with the host:
//! it constructs the application however its platform requires and hands the
//! finished value to the coordinator's install step.

use vstd::prelude::*;
use crate::coalescer::ResizeCoalescer;
use crate::event::{
    CursorPosition, DeviceInput, ElementState, KeyInput, MouseButton, SurfaceErrorKind, TouchPhase,
    WheelDelta,
};
use crate::size::Size;

verus! {

/// One call the coordinator made into an application, with its payload.
/// The trait's call log is a sequence of these, so a contract can witness
/// not only how an entry point moved the size state but that the entry
/// point was reached at all, with which arguments, and in which order.
#[derive(Clone, Copy, Debug, PartialEq, Eq, Structural)]
pub enum AppCall {
    SetWindowResized(Size),
    Update(u64),
    Render,
    Keyboard(KeyInput),
    MouseWheel(WheelDelta, TouchPhase),
    MouseClick(ElementState, MouseButton),
    CursorMove(CursorPosition),
    Device(DeviceInput),
    PrePresentNotify,
    RequestRedraw,
}

pub trait WgpuAppAction: Sized {
    /// The application's own invariant; every entry point keeps it.
    spec fn inv(&self) -> bool;

    /// The application's size state: last configured size, desired size,
    /// and the dirty flag between them.
    spec fn size_state(&self) -> ResizeCoalescer;

    /// Every call the coordinator made into this application, in order.
    spec fn call_log(&self) -> Seq<AppCall>;

    /// Records that the window asked for `new_size`. Must only record: the
    /// surface is reconfigured at the start of the next render, never here,
    /// so that a burst of resize notifications costs one reconfiguration.
    fn set_window_resized(&mut self, new_size: Size)
        requires
            old(self).inv(),
        ensures
            final(self).inv(),
            final(self).size_state() == old(self).size_state().record_step(new_size),
            final(self).call_log() == old(self).call_log().push(
                AppCall::SetWindowResized(new_size),
            ),
    ;

    /// The size the surface is currently configured with.
    fn get_size(&self) -> (size: Size)
        requires
            self.inv(),
        ensures
            size == self.size_state().configured,
    ;

    /// Advances the application's simulation by `dt_ms` milliseconds. May
    /// not touch the surface configuration.
    fn update(&mut self, dt_ms: u64)
        requires
            old(self).inv(),
        ensures
            final(self).inv(),
            final(self).size_state() == old(self).size_state(),
            final(self).call_log() == old(self).call_log().push(AppCall::Update(dt_ms)),
    ;

    /// Draws and presents one frame. While the desired size has a zero
    /// dimension the surface cannot present, so the call must succeed
    /// without touching it. Otherwise the call first applies any coalesced
    /// resize, and when it reports the surface lost or outdated it must
    /// leave the dirty flag set, so that the next frame reconfigures.
    fn render(&mut self) -> (result: Result<(), SurfaceErrorKind>)
        requires
            old(self).inv(),
        ensures
            final(self).inv(),
            final(self).size_state() == old(self).size_state().render_step(result),
            old(self).size_state().desired.is_zero() ==> result is Ok,
            final(self).call_log() == old(self).call_log().push(AppCall::Render),
    ;

    /// Handles a keyboard event; the flag only serves the application's own
    /// routing.
    fn keyboard_input(&mut self, event: &KeyInput) -> (consumed: bool)
        requires
            old(self).inv(),
        ensures
            final(self).inv(),
            final(self).size_state() == old(self).size_state(),
            final(self).call_log() == old(self).call_log().push(AppCall::Keyboard(*event)),
    ;

    /// Handles a mouse click.
    fn mouse_click(&mut self, state: ElementState, button: MouseButton) -> (consumed: bool)
        requires
            old(self).inv(),
        ensures
            final(self).inv(),
            final(self).size_state() == old(self).size_state(),
            final(self).call_log() == old(self).call_log().push(
                AppCall::MouseClick(state, button),
            ),
    ;

    /// Handles a scroll event.
    fn mouse_wheel(&mut self, delta: WheelDelta, phase: TouchPhase) -> (consumed: bool)
        requires
            old(self).inv(),
        ensures
            final(self).inv(),
            final(self).size_state() == old(self).size_state(),
            final(self).call_log() == old(self).call_log().push(
                AppCall::MouseWheel(delta, phase),
            ),
    ;

    /// Handles a cursor movement.
    fn cursor_move(&mut self, position: CursorPosition) -> (consumed: bool)
        requires
            old(self).inv(),
        ensures
            final(self).inv(),
            final(self).size_state() == old(self).size_state(),
            final(self).call_log() == old(self).call_log().push(
                AppCall::CursorMove(position),
            ),
    ;

    /// Handles a raw device event.
    fn device_input(&mut self, event: &DeviceInput) -> (consumed: bool)
        requires
            old(self).inv(),
        ensures
            final(self).inv(),
            final(self).size_state() == old(self).size_state(),
            final(self).call_log() == old(self).call_log().push(AppCall::Device(*event)),
    ;

    /// Tells the windowing layer that presentation is imminent; some
    /// compositors need this hand-shake before every present.
    fn pre_present_notify(&mut self)
        requires
            old(self).inv(),
        ensures
            final(self).inv(),
            final(self).size_state() == old(self).size_state(),
            final(self).call_log() == old(self).call_log().push(AppCall::PrePresentNotify),
    ;

    /// Asks the windowing layer for the next redraw; the scheduler calls
    /// this after every frame, so the loop runs continuously.
    fn request_redraw(&mut self)
        requires
            old(self).inv(),
        ensures
            final(self).inv(),
            final(self).size_state() == old(self).size_state(),
            final(self).call_log() == old(self).call_log().push(AppCall::RequestRedraw),
    ;
}

} // verus!
