//! Application-lifecycle coordination for window-driven graphics programs.
//!
//! The crate owns the control structure that sits between a synchronous,
//! callback-driven windowing event loop and an asynchronously acquired
//! graphics application: it decides when events may be delivered, buffers a
//! resize that arrives too early, coalesces rapid resize notifications, and
//! drives the per-frame update/render cadence with recoverable failure
//! handling.

pub mod action;
pub mod clock;
pub mod coalescer;
pub mod color;
pub mod event;
pub mod handler;
pub mod headless;
pub mod laws;
pub mod size;
pub mod vertex;

pub use color::{pack_rgba8_to_u32, unpack_u32_to_rgba8};
