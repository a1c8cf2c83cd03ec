//! The windowing events and input payloads that the coordinator routes.
//!
//! The coordinator only ever inspects the event discriminant and, for a
//! resize, the new size. Every other payload is carried through to the
//! application untouched. Payloads that the host produces as floating-point
//! coordinates travel here as their IEEE-754 bit patterns (`f64::to_bits`);
//! the application decodes them again, and the coordinator never interprets
//! them.

use vstd::prelude::*;
use crate::size::Size;

verus! {

/// Whether a key or button went down or up.
#[derive(Clone, Copy, Debug, PartialEq, Eq, Structural)]
pub enum ElementState {
    Pressed,
    Released,
}

/// The button of a mouse click.
#[derive(Clone, Copy, Debug, PartialEq, Eq, Structural)]
pub enum MouseButton {
    Left,
    Right,
    Middle,
    Back,
    Forward,
    Other(u16),
}

/// The phase of a scroll gesture.
#[derive(Clone, Copy, Debug, PartialEq, Eq, Structural)]
pub enum TouchPhase {
    Started,
    Moved,
    Ended,
    Cancelled,
}

/// A keyboard event: the host's key code with the press state.
#[derive(Clone, Copy, Debug, PartialEq, Eq, Structural)]
pub struct KeyInput {
    pub key_code: u32,
    pub state: ElementState,
    pub repeat: bool,
}

/// The unit a scroll delta is measured in.
#[derive(Clone, Copy, Debug, PartialEq, Eq, Structural)]
pub enum WheelUnit {
    Lines,
    Pixels,
}

/// A scroll amount, both axes as `f64` bit patterns.
#[derive(Clone, Copy, Debug, PartialEq, Eq, Structural)]
pub struct WheelDelta {
    pub unit: WheelUnit,
    pub x_bits: u64,
    pub y_bits: u64,
}

/// A cursor location in window coordinates, both axes as `f64` bit patterns.
#[derive(Clone, Copy, Debug, PartialEq, Eq, Structural)]
pub struct CursorPosition {
    pub x_bits: u64,
    pub y_bits: u64,
}

/// A raw device event, delivered outside the window event stream.
#[derive(Clone, Copy, Debug, PartialEq, Eq, Structural)]
pub enum DeviceInput {
    MouseMotion { dx_bits: u64, dy_bits: u64 },
    Other,
}

/// Why presenting a frame failed. `Lost` and `Outdated` mean the surface
/// must be reconfigured before it can present again; the remaining kinds are
/// transient and the next frame is their retry.
#[derive(Clone, Copy, Debug, PartialEq, Eq, Structural)]
pub enum SurfaceErrorKind {
    Lost,
    Outdated,
    Timeout,
    OutOfMemory,
    Other,
}

/// A windowing event as the host loop delivers it.
#[derive(Clone, Copy, Debug, PartialEq, Eq, Structural)]
pub enum WindowEvent {
    CloseRequested,
    Resized(Size),
    Keyboard(KeyInput),
    MouseWheel(WheelDelta, TouchPhase),
    MouseInput(ElementState, MouseButton),
    CursorMoved(CursorPosition),
    RedrawRequested,
    Other,
}

} // verus!
