//! The application-lifecycle coordinator.
//!
//! A windowing host delivers events synchronously, while the graphics
//! application behind them is produced asynchronously and may not exist yet
//! when the first events arrive. The handler owns the single slot the
//! application is installed into, decides for every event whether it is
//! forwarded, buffered or dropped, and drives the per-frame cadence once
//! the application exists.
//!
//! The host is expected to call [`WgpuAppHandler::on_resume`] when its
//! window becomes available, start acquiring the graphics context exactly
//! when that returns [`ResumeAction::StartBringUp`], and hand the finished
//! application to [`WgpuAppHandler::install_app`]. Window events go to
//! [`WgpuAppHandler::on_window_event`] whether or not bring-up has
//! finished; the handler buffers the one event that must survive bring-up —
//! the newest usable resize — and drops the rest.

use vstd::prelude::*;
use crate::action::{AppCall, WgpuAppAction};
use crate::clock::FrameClock;
use crate::event::{DeviceInput, SurfaceErrorKind, WindowEvent};
use crate::size::Size;

verus! {

/// Where the handler stands in its life: no window yet, bring-up running,
/// application installed, or termination requested.
#[derive(Clone, Copy, Debug, PartialEq, Eq, Structural)]
pub enum Phase {
    Idle,
    Initializing,
    Ready,
    Exiting,
}

/// What a resume notification asks of the host.
#[derive(Clone, Copy, Debug, PartialEq, Eq, Structural)]
pub enum ResumeAction {
    /// Create the window and start acquiring the graphics context.
    StartBringUp,
    /// Bring-up already ran; a duplicate resume changes nothing.
    AlreadyActive,
}

/// What one scheduled frame did.
#[derive(Clone, Copy, Debug, PartialEq, Eq)]
pub struct FrameReport {
    /// Milliseconds since the previous frame, as handed to the update step.
    pub dt_ms: u64,
    /// What the render reported. Every failure is contained: the next
    /// frame is the retry, and a lost or outdated surface has already been
    /// marked for reconfiguration.
    pub render_result: Result<(), SurfaceErrorKind>,
}

/// What the host loop should do after delivering an event.
#[derive(Clone, Copy, Debug, PartialEq, Eq)]
pub enum EventOutcome {
    /// Keep the loop running.
    Continue,
    /// Terminate the loop; the handler is exiting.
    Exit,
    /// Keep running; the event scheduled a frame, described by the report.
    Frame(FrameReport),
}

/// The lifecycle coordinator: the application slot, the buffered resize,
/// the frame clock and the lifecycle phase.
pub struct WgpuAppHandler<A: WgpuAppAction> {
    /// The single slot the application is installed into, exactly once per
    /// bring-up.
    pub app: Option<A>,
    /// The newest usable resize that arrived while the slot was empty.
    pub pending_resize: Option<Size>,
    /// The frame clock.
    pub clock: FrameClock,
    /// The lifecycle phase.
    pub phase: Phase,
}

/// The phase, frame-clock and action that a resume notification yields:
/// only the first resume starts bring-up, every later one is a no-op.
pub open spec fn resume_step(phase: Phase, last_ms: u64, now_ms: u64) -> (Phase, u64, ResumeAction) {
    if phase == Phase::Idle {
        (Phase::Initializing, now_ms, ResumeAction::StartBringUp)
    } else {
        (phase, last_ms, ResumeAction::AlreadyActive)
    }
}

/// The buffer contents after a resize arrives while the slot is empty: a
/// usable size overwrites whatever was buffered, a zero size is dropped.
pub open spec fn buffer_step(pending: Option<Size>, size: Size) -> Option<Size> {
    if !size.is_zero() {
        Option::Some(size)
    } else {
        pending
    }
}

impl<A: WgpuAppAction> WgpuAppHandler<A> {
    /// The handler's invariant: an installed application is sound and has
    /// drained the buffer, the phase agrees with the slot, and only a
    /// usable size is ever buffered.
    pub open spec fn wf(self) -> bool {
        &&& (match self.app {
            Option::Some(a) => a.inv(),
            Option::None => true,
        })
        &&& (self.app is Some ==> self.pending_resize is None)
        &&& (self.phase == Phase::Ready ==> self.app is Some)
        &&& ((self.phase == Phase::Idle || self.phase == Phase::Initializing) ==> self.app is None)
        &&& (match self.pending_resize {
            Option::Some(missed) => !missed.is_zero(),
            Option::None => true,
        })
    }

    /// An idle handler with an empty slot and an empty buffer.
    pub fn new() -> (handler: Self)
        ensures
            handler.wf(),
            handler.phase == Phase::Idle,
            handler.app is None,
            handler.pending_resize is None,
            handler.clock.last_ms == 0,
    {
        WgpuAppHandler {
            app: None,
            pending_resize: None,
            clock: FrameClock::new(),
            phase: Phase::Idle,
        }
    }

    /// Handles a resume notification from the host. Returns
    /// [`ResumeAction::StartBringUp`] exactly when the host must create the
    /// window and begin acquiring the graphics context; a duplicate resume
    /// leaves the handler unchanged, so no second application or window is
    /// ever brought up.
    pub fn on_resume(&mut self, now_ms: u64) -> (action: ResumeAction)
        requires
            old(self).wf(),
        ensures
            final(self).wf(),
            (final(self).phase, final(self).clock.last_ms, action) == resume_step(
                old(self).phase,
                old(self).clock.last_ms,
                now_ms,
            ),
            final(self).app == old(self).app,
            final(self).pending_resize == old(self).pending_resize,
            final(self).clock.epoch == old(self).clock.epoch,
    {
        match self.phase {
            Phase::Idle => {
                self.clock.reset(now_ms);
                self.phase = Phase::Initializing;
                ResumeAction::StartBringUp
            },
            _ => ResumeAction::AlreadyActive,
        }
    }

    /// Installs the application that bring-up produced — once per bring-up,
    /// which the phase enforces. A resize buffered during bring-up is
    /// applied to the fresh application here, before any frame can run, and
    /// a redraw is requested for it; the return value says whether that
    /// happened.
    pub fn install_app(&mut self, app: A) -> (redraw_requested: bool)
        requires
            old(self).wf(),
            old(self).phase == Phase::Initializing,
            app.inv(),
        ensures
            final(self).wf(),
            final(self).phase == Phase::Ready,
            final(self).pending_resize is None,
            final(self).clock == old(self).clock,
            redraw_requested == (old(self).pending_resize is Some),
            (match final(self).app {
                Option::Some(installed) => (match old(self).pending_resize {
                    Option::Some(missed) => installed.size_state() == app.size_state().record_step(
                        missed,
                    ) && installed.call_log() == app.call_log().push(
                        AppCall::SetWindowResized(missed),
                    ).push(AppCall::RequestRedraw),
                    Option::None => installed == app,
                }),
                Option::None => false,
            }),
    {
        let pending = self.pending_resize.take();
        self.app = Some(app);
        self.phase = Phase::Ready;
        match pending {
            Some(missed) => {
                match &mut self.app {
                    Some(installed) => {
                        installed.set_window_resized(missed);
                        installed.request_redraw();
                    },
                    None => {},
                }
                true
            },
            None => false,
        }
    }

    /// Handles a termination request from the host; the loop should stop.
    pub fn on_exit_requested(&mut self)
        requires
            old(self).wf(),
        ensures
            final(self).wf(),
            final(self).phase == Phase::Exiting,
            final(self).app == old(self).app,
            final(self).pending_resize == old(self).pending_resize,
            final(self).clock == old(self).clock,
    {
        self.phase = Phase::Exiting;
    }

    /// Runs one frame: times it, updates the application, performs the
    /// pre-present hand-shake, renders, and unconditionally requests the
    /// next redraw — the loop never stops itself.
    fn frame_step(&mut self, now_ms: u64) -> (report: FrameReport)
        requires
            old(self).wf(),
            old(self).app is Some,
        ensures
            final(self).wf(),
            final(self).phase == old(self).phase,
            final(self).pending_resize == old(self).pending_resize,
            (final(self).clock.last_ms, report.dt_ms) == FrameClock::tick_step(
                old(self).clock.last_ms,
                now_ms,
            ),
            final(self).clock.epoch == old(self).clock.epoch,
            (match (final(self).app, old(self).app) {
                (Option::Some(after), Option::Some(before)) => after.size_state()
                    == before.size_state().render_step(report.render_result)
                    && (before.size_state().desired.is_zero() ==> report.render_result is Ok)
                    && after.call_log() == before.call_log().push(
                        AppCall::Update(report.dt_ms),
                    ).push(AppCall::PrePresentNotify).push(AppCall::Render).push(
                        AppCall::RequestRedraw,
                    ),
                _ => false,
            }),
    {
        let dt = self.clock.tick(now_ms);
        match &mut self.app {
            Some(app) => {
                app.update(dt);
                app.pre_present_notify();
                let render_result = app.render();
                app.request_redraw();
                FrameReport { dt_ms: dt, render_result }
            },
            None => FrameReport { dt_ms: dt, render_result: Ok(()) },
        }
    }

    /// Routes one window event.
    ///
    /// A close request always terminates the loop. While the slot is empty,
    /// the newest usable resize is buffered and every other event is
    /// dropped — none of them carries state that must survive bring-up.
    /// With the application installed, a usable resize is recorded for
    /// coalescing, a zero resize (minimized window) is ignored, input goes
    /// to the application's handlers, and a redraw request runs one frame.
    pub fn on_window_event(&mut self, event: WindowEvent, now_ms: u64) -> (outcome: EventOutcome)
        requires
            old(self).wf(),
        ensures
            final(self).wf(),
            final(self).phase == (if event is CloseRequested {
                Phase::Exiting
            } else {
                old(self).phase
            }),
            (outcome is Exit) == (event is CloseRequested),
            (final(self).app is Some) == (old(self).app is Some),
            final(self).clock.epoch == old(self).clock.epoch,
            (event is CloseRequested) ==> final(self).app == old(self).app
                && final(self).pending_resize == old(self).pending_resize
                && final(self).clock.last_ms == old(self).clock.last_ms,
            (old(self).app is None && !(event is CloseRequested)) ==> outcome is Continue
                && final(self).clock.last_ms == old(self).clock.last_ms
                && final(self).pending_resize == (match event {
                    WindowEvent::Resized(size) => buffer_step(old(self).pending_resize, size),
                    _ => old(self).pending_resize,
                }),
            (old(self).app is Some && !(event is CloseRequested)) ==> final(self).pending_resize
                == old(self).pending_resize
                && (match (final(self).app, old(self).app) {
                    (Option::Some(after), Option::Some(before)) => (match event {
                        WindowEvent::Resized(size) => outcome is Continue
                            && final(self).clock.last_ms == old(self).clock.last_ms
                            && after.size_state() == (if size.is_zero() {
                                before.size_state()
                            } else {
                                before.size_state().record_step(size)
                            })
                            && after.call_log() == (if size.is_zero() {
                                before.call_log()
                            } else {
                                before.call_log().push(AppCall::SetWindowResized(size))
                            }),
                        WindowEvent::RedrawRequested => (match outcome {
                            EventOutcome::Frame(report) => (
                                final(self).clock.last_ms,
                                report.dt_ms,
                            ) == FrameClock::tick_step(old(self).clock.last_ms, now_ms)
                                && after.size_state() == before.size_state().render_step(
                                    report.render_result,
                                )
                                && (before.size_state().desired.is_zero()
                                    ==> report.render_result is Ok)
                                && after.call_log() == before.call_log().push(
                                    AppCall::Update(report.dt_ms),
                                ).push(AppCall::PrePresentNotify).push(AppCall::Render).push(
                                    AppCall::RequestRedraw,
                                ),
                            _ => false,
                        }),
                        WindowEvent::Keyboard(key) => outcome is Continue
                            && final(self).clock.last_ms == old(self).clock.last_ms
                            && after.size_state() == before.size_state()
                            && after.call_log() == before.call_log().push(
                                AppCall::Keyboard(key),
                            ),
                        WindowEvent::MouseWheel(delta, touch) => outcome is Continue
                            && final(self).clock.last_ms == old(self).clock.last_ms
                            && after.size_state() == before.size_state()
                            && after.call_log() == before.call_log().push(
                                AppCall::MouseWheel(delta, touch),
                            ),
                        WindowEvent::MouseInput(state, button) => outcome is Continue
                            && final(self).clock.last_ms == old(self).clock.last_ms
                            && after.size_state() == before.size_state()
                            && after.call_log() == before.call_log().push(
                                AppCall::MouseClick(state, button),
                            ),
                        WindowEvent::CursorMoved(position) => outcome is Continue
                            && final(self).clock.last_ms == old(self).clock.last_ms
                            && after.size_state() == before.size_state()
                            && after.call_log() == before.call_log().push(
                                AppCall::CursorMove(position),
                            ),
                        _ => outcome is Continue
                            && final(self).clock.last_ms == old(self).clock.last_ms
                            && after.size_state() == before.size_state()
                            && after.call_log() == before.call_log(),
                    }),
                    _ => false,
                }),
    {
        match event {
            WindowEvent::CloseRequested => {
                self.phase = Phase::Exiting;
                EventOutcome::Exit
            },
            _ => {
                if self.app.is_none() {
                    if let WindowEvent::Resized(size) = event {
                        if !size.has_zero_dimension() {
                            self.pending_resize = Some(size);
                        }
                    }
                    EventOutcome::Continue
                } else {
                    match event {
                        WindowEvent::Resized(size) => {
                            if !size.has_zero_dimension() {
                                match &mut self.app {
                                    Some(app) => {
                                        app.set_window_resized(size);
                                    },
                                    None => {},
                                }
                            }
                            EventOutcome::Continue
                        },
                        WindowEvent::Keyboard(key) => {
                            match &mut self.app {
                                Some(app) => {
                                    let _ = app.keyboard_input(&key);
                                },
                                None => {},
                            }
                            EventOutcome::Continue
                        },
                        WindowEvent::MouseWheel(delta, phase) => {
                            match &mut self.app {
                                Some(app) => {
                                    let _ = app.mouse_wheel(delta, phase);
                                },
                                None => {},
                            }
                            EventOutcome::Continue
                        },
                        WindowEvent::MouseInput(state, button) => {
                            match &mut self.app {
                                Some(app) => {
                                    let _ = app.mouse_click(state, button);
                                },
                                None => {},
                            }
                            EventOutcome::Continue
                        },
                        WindowEvent::CursorMoved(position) => {
                            match &mut self.app {
                                Some(app) => {
                                    let _ = app.cursor_move(position);
                                },
                                None => {},
                            }
                            EventOutcome::Continue
                        },
                        WindowEvent::RedrawRequested => EventOutcome::Frame(
                            self.frame_step(now_ms),
                        ),
                        _ => EventOutcome::Continue,
                    }
                }
            },
        }
    }

    /// Routes one raw device event to the application, if one is installed;
    /// before that, device events carry nothing worth keeping.
    pub fn on_device_event(&mut self, event: &DeviceInput)
        requires
            old(self).wf(),
        ensures
            final(self).wf(),
            final(self).phase == old(self).phase,
            final(self).pending_resize == old(self).pending_resize,
            final(self).clock == old(self).clock,
            (match (final(self).app, old(self).app) {
                (Option::Some(after), Option::Some(before)) => after.size_state()
                    == before.size_state()
                    && after.call_log() == before.call_log().push(AppCall::Device(*event)),
                (Option::None, Option::None) => true,
                _ => false,
            }),
    {
        match &mut self.app {
            Some(app) => {
                let _ = app.device_input(event);
            },
            None => {},
        }
    }

    /// Whether an application is installed.
    pub fn has_app(&self) -> (present: bool)
        ensures
            present == (self.app is Some),
    {
        self.app.is_some()
    }

    /// Tears the handler down, handing the application back to the host so
    /// that it is dropped before the window. The handler returns to idle.
    pub fn take_app(&mut self) -> (app: Option<A>)
        requires
            old(self).wf(),
        ensures
            final(self).wf(),
            final(self).phase == Phase::Idle,
            final(self).app is None,
            final(self).pending_resize is None,
            final(self).clock == old(self).clock,
            app == old(self).app,
    {
        self.phase = Phase::Idle;
        self.pending_resize = None;
        self.app.take()
    }
}

} // verus!
