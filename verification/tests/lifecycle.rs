use wgpu_framework::action::WgpuAppAction;
use wgpu_framework::event::{KeyInput, ElementState, MouseButton, SurfaceErrorKind, WindowEvent, DeviceInput};
use wgpu_framework::handler::{EventOutcome, Phase, ResumeAction, WgpuAppHandler};
use wgpu_framework::headless::HeadlessApp;
use wgpu_framework::size::Size;

fn ready_handler(initial: Size) -> WgpuAppHandler<HeadlessApp> {
    let mut handler = WgpuAppHandler::new();
    assert_eq!(handler.on_resume(0), ResumeAction::StartBringUp);
    handler.install_app(HeadlessApp::new(initial));
    handler
}

#[test]
fn resume_is_idempotent() {
    let mut handler = ready_handler(Size::new(800, 600));
    assert!(handler.has_app());
    assert_eq!(handler.on_resume(25), ResumeAction::AlreadyActive);
    assert_eq!(handler.on_resume(30), ResumeAction::AlreadyActive);
    assert_eq!(handler.phase, Phase::Ready);
    assert!(handler.has_app());
    let app = handler.take_app().unwrap();
    assert_eq!(app.size.configured, Size::new(800, 600));
}

#[test]
fn resume_during_bring_up_does_not_restart() {
    let mut handler = WgpuAppHandler::<HeadlessApp>::new();
    assert_eq!(handler.on_resume(0), ResumeAction::StartBringUp);
    assert_eq!(handler.phase, Phase::Initializing);
    assert_eq!(handler.on_resume(5), ResumeAction::AlreadyActive);
    assert_eq!(handler.phase, Phase::Initializing);
}

#[test]
fn buffered_resize_is_applied_at_install() {
    let mut handler = WgpuAppHandler::<HeadlessApp>::new();
    handler.on_resume(0);
    let outcome = handler.on_window_event(WindowEvent::Resized(Size::new(640, 480)), 10);
    assert_eq!(outcome, EventOutcome::Continue);
    assert_eq!(handler.pending_resize, Some(Size::new(640, 480)));
    let redraw_requested = handler.install_app(HeadlessApp::new(Size::new(800, 600)));
    assert!(redraw_requested);
    assert_eq!(handler.pending_resize, None);
    let app = handler.app.as_ref().unwrap();
    assert_eq!(app.size.desired, Size::new(640, 480));
    assert!(app.size.dirty);
    assert_eq!(app.redraw_request_count, 1);
}

#[test]
fn latest_buffered_resize_wins() {
    let mut handler = WgpuAppHandler::<HeadlessApp>::new();
    handler.on_resume(0);
    handler.on_window_event(WindowEvent::Resized(Size::new(100, 100)), 1);
    handler.on_window_event(WindowEvent::Resized(Size::new(200, 200)), 2);
    assert_eq!(handler.pending_resize, Some(Size::new(200, 200)));
    handler.install_app(HeadlessApp::new(Size::new(800, 600)));
    handler.on_window_event(WindowEvent::RedrawRequested, 20);
    let app = handler.app.as_ref().unwrap();
    assert_eq!(app.size.configured, Size::new(200, 200));
    assert!(!app.size.dirty);
}

#[test]
fn zero_resize_is_not_buffered() {
    let mut handler = WgpuAppHandler::<HeadlessApp>::new();
    handler.on_resume(0);
    handler.on_window_event(WindowEvent::Resized(Size::new(0, 300)), 1);
    assert_eq!(handler.pending_resize, None);
    handler.on_window_event(WindowEvent::Resized(Size::new(300, 300)), 2);
    handler.on_window_event(WindowEvent::Resized(Size::new(300, 0)), 3);
    assert_eq!(handler.pending_resize, Some(Size::new(300, 300)));
}

#[test]
fn events_before_install_are_dropped() {
    let mut handler = WgpuAppHandler::<HeadlessApp>::new();
    handler.on_resume(0);
    let key = KeyInput { key_code: 32, state: ElementState::Pressed, repeat: false };
    assert_eq!(handler.on_window_event(WindowEvent::Keyboard(key), 1), EventOutcome::Continue);
    assert_eq!(handler.on_window_event(WindowEvent::RedrawRequested, 2), EventOutcome::Continue);
    handler.install_app(HeadlessApp::new(Size::new(800, 600)));
    let app = handler.app.as_ref().unwrap();
    assert_eq!(app.input_count, 0);
    assert_eq!(app.render_count, 0);
}

#[test]
fn close_requested_always_exits() {
    let mut empty = WgpuAppHandler::<HeadlessApp>::new();
    assert_eq!(empty.on_window_event(WindowEvent::CloseRequested, 0), EventOutcome::Exit);
    assert_eq!(empty.phase, Phase::Exiting);

    let mut ready = ready_handler(Size::new(800, 600));
    assert_eq!(ready.on_window_event(WindowEvent::CloseRequested, 5), EventOutcome::Exit);
    assert_eq!(ready.phase, Phase::Exiting);
}

#[test]
fn input_is_forwarded_once_installed() {
    let mut handler = ready_handler(Size::new(800, 600));
    let key = KeyInput { key_code: 65, state: ElementState::Pressed, repeat: false };
    handler.on_window_event(WindowEvent::Keyboard(key), 1);
    handler.on_window_event(WindowEvent::MouseInput(ElementState::Released, MouseButton::Left), 2);
    handler.on_device_event(&DeviceInput::MouseMotion { dx_bits: 0, dy_bits: 0 });
    let app = handler.app.as_ref().unwrap();
    assert_eq!(app.input_count, 3);
}

#[test]
fn frame_runs_update_render_and_requests_redraw() {
    let mut handler = ready_handler(Size::new(800, 600));
    let outcome = handler.on_window_event(WindowEvent::RedrawRequested, 16);
    match outcome {
        EventOutcome::Frame(report) => {
            assert_eq!(report.dt_ms, 16);
            assert_eq!(report.render_result, Ok(()));
        }
        other => panic!("expected a frame, got {other:?}"),
    }
    let app = handler.app.as_ref().unwrap();
    assert_eq!(app.update_count, 1);
    assert_eq!(app.last_dt_ms, 16);
    assert_eq!(app.render_count, 1);
    assert_eq!(app.pre_present_count, 1);
    assert_eq!(app.redraw_request_count, 1);
}

#[test]
fn frame_timing_is_monotone() {
    let mut handler = ready_handler(Size::new(800, 600));
    let first = handler.on_window_event(WindowEvent::RedrawRequested, 100);
    let second = handler.on_window_event(WindowEvent::RedrawRequested, 116);
    let backwards = handler.on_window_event(WindowEvent::RedrawRequested, 90);
    let resumed = handler.on_window_event(WindowEvent::RedrawRequested, 120);
    let dts: Vec<u64> = [first, second, backwards, resumed]
        .iter()
        .map(|outcome| match outcome {
            EventOutcome::Frame(report) => report.dt_ms,
            other => panic!("expected a frame, got {other:?}"),
        })
        .collect();
    assert_eq!(dts, vec![100, 16, 0, 4]);
    assert_eq!(handler.clock.last_ms, 120);
}

#[test]
fn lost_surface_recovers_next_frame() {
    let mut handler = ready_handler(Size::new(800, 600));
    handler.on_window_event(WindowEvent::RedrawRequested, 10);
    handler.app.as_mut().unwrap().inject_render_error(SurfaceErrorKind::Lost);
    let failing = handler.on_window_event(WindowEvent::RedrawRequested, 20);
    match failing {
        EventOutcome::Frame(report) => assert_eq!(report.render_result, Err(SurfaceErrorKind::Lost)),
        other => panic!("expected a frame, got {other:?}"),
    }
    assert!(handler.app.as_ref().unwrap().size.dirty);
    let recovering = handler.on_window_event(WindowEvent::RedrawRequested, 30);
    match recovering {
        EventOutcome::Frame(report) => assert_eq!(report.render_result, Ok(())),
        other => panic!("expected a frame, got {other:?}"),
    }
    let app = handler.app.as_ref().unwrap();
    assert!(!app.size.dirty);
    assert_eq!(app.size.configured, Size::new(800, 600));
    assert_eq!(app.reconfigure_count, 1);
}

#[test]
fn transient_error_does_not_force_reconfiguration() {
    let mut handler = ready_handler(Size::new(800, 600));
    handler.app.as_mut().unwrap().inject_render_error(SurfaceErrorKind::Timeout);
    let failing = handler.on_window_event(WindowEvent::RedrawRequested, 10);
    match failing {
        EventOutcome::Frame(report) => {
            assert_eq!(report.render_result, Err(SurfaceErrorKind::Timeout));
        }
        other => panic!("expected a frame, got {other:?}"),
    }
    let app = handler.app.as_ref().unwrap();
    assert!(!app.size.dirty);
    assert_eq!(app.reconfigure_count, 0);
}

#[test]
fn zero_sized_window_suppresses_rendering() {
    let mut handler = ready_handler(Size::new(800, 600));
    handler.app.as_mut().unwrap().set_window_resized(Size::new(0, 600));
    let outcome = handler.on_window_event(WindowEvent::RedrawRequested, 10);
    match outcome {
        EventOutcome::Frame(report) => assert_eq!(report.render_result, Ok(())),
        other => panic!("expected a frame, got {other:?}"),
    }
    let app = handler.app.as_ref().unwrap();
    assert_eq!(app.render_count, 0);
    assert_eq!(app.suppressed_count, 1);
    assert_eq!(app.reconfigure_count, 0);
}

#[test]
fn minimize_event_is_ignored_when_installed() {
    let mut handler = ready_handler(Size::new(800, 600));
    handler.on_window_event(WindowEvent::Resized(Size::new(0, 0)), 5);
    let app = handler.app.as_ref().unwrap();
    assert_eq!(app.size.desired, Size::new(800, 600));
    assert!(!app.size.dirty);
}

#[test]
fn end_to_end_bring_up_scenario() {
    // Bring-up takes 50 ms; a usable resize arrives at t = 10 ms, while the
    // slot is still empty; the application installs at t = 50 ms.
    let mut handler = WgpuAppHandler::<HeadlessApp>::new();
    assert_eq!(handler.on_resume(0), ResumeAction::StartBringUp);
    handler.on_window_event(WindowEvent::Resized(Size::new(640, 480)), 10);
    let redraw_requested = handler.install_app(HeadlessApp::new(Size::new(512, 512)));
    assert!(redraw_requested);
    {
        let app = handler.app.as_ref().unwrap();
        assert_eq!(app.size.desired, Size::new(640, 480));
        assert_eq!(app.render_count, 0);
    }
    let first_frame = handler.on_window_event(WindowEvent::RedrawRequested, 50);
    match first_frame {
        EventOutcome::Frame(report) => assert_eq!(report.render_result, Ok(())),
        other => panic!("expected a frame, got {other:?}"),
    }
    let app = handler.app.as_ref().unwrap();
    assert_eq!(app.size.configured, Size::new(640, 480));
    assert!(!app.size.dirty);
    assert_eq!(app.reconfigure_count, 1);
    assert_eq!(app.render_count, 1);
}

#[test]
fn take_app_returns_to_idle() {
    let mut handler = ready_handler(Size::new(800, 600));
    let app = handler.take_app();
    assert!(app.is_some());
    assert_eq!(handler.phase, Phase::Idle);
    assert!(!handler.has_app());
    assert_eq!(handler.pending_resize, None);
}
