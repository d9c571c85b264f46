use framepipe::app::{Action, App, Lifecycle, StartAction, WindowEvent};
use framepipe::config::{CompositeAlphaMode, PhysicalSize, PresentMode, SurfaceCapabilities};
use framepipe::gpupipeline::{Elapsed, FatalError, Phase, RenderAction, State, SurfaceError};
use wgpu::TextureFormat;

fn created() -> Result<State, FatalError> {
    let caps = SurfaceCapabilities {
        formats: vec![TextureFormat::Bgra8UnormSrgb],
        present_modes: vec![PresentMode::Fifo],
        alpha_modes: vec![CompositeAlphaMode::Opaque],
    };
    State::new(&caps, PhysicalSize { width: 800, height: 600 })
}

fn ready() -> App {
    let mut app = App::new();
    assert_eq!(app.resumed(created()), StartAction::RequestRedraw);
    app
}

fn state(app: &App) -> &State {
    match &app.componet {
        Lifecycle::Ready(state) => state,
        Lifecycle::Uninitialized => panic!("the application is not ready"),
    }
}

#[test]
fn new_application_is_uninitialized() {
    let app = App::new();
    assert!(matches!(app.componet, Lifecycle::Uninitialized));
}

#[test]
fn resumed_with_a_state_is_ready_and_asks_for_a_redraw() {
    let mut app = App::new();
    let action = app.resumed(created());
    assert_eq!(action, StartAction::RequestRedraw);
    assert_eq!(state(&app).size, PhysicalSize { width: 800, height: 600 });
    assert_eq!(state(&app).phase, Phase::Ready);
}

#[test]
fn resumed_with_an_error_asks_to_stop() {
    let mut app = App::new();
    let action = app.resumed(Err(FatalError::DeviceUnavailable));
    assert_eq!(action, StartAction::Abort(FatalError::DeviceUnavailable));
    assert!(matches!(app.componet, Lifecycle::Uninitialized));
}

#[test]
fn close_request_exits_in_either_state() {
    let mut app = App::new();
    assert_eq!(app.window_event(WindowEvent::CloseRequested), Action::Exit);
    let mut app = ready();
    assert_eq!(app.window_event(WindowEvent::CloseRequested), Action::Exit);
    assert_eq!(state(&app).size, PhysicalSize { width: 800, height: 600 });
}

#[test]
fn events_before_resume_are_ignored() {
    let mut app = App::new();
    for event in [
        WindowEvent::RedrawRequested,
        WindowEvent::Resized(PhysicalSize { width: 1, height: 2 }),
        WindowEvent::KeyboardInput,
        WindowEvent::CursorMoved,
        WindowEvent::Other,
    ] {
        assert_eq!(app.window_event(event), Action::Ignore);
        assert!(matches!(app.componet, Lifecycle::Uninitialized));
    }
    let action = app.redraw(Ok(()), Elapsed { secs: 1, subsec_nanos: 0 }, true);
    assert!(matches!(action, RenderAction::Skip));
}

#[test]
fn resized_event_reconfigures_for_the_new_size() {
    let mut app = ready();
    let action = app.window_event(WindowEvent::Resized(PhysicalSize { width: 1024, height: 768 }));
    assert_eq!(action, Action::Reconfigure);
    let s = state(&app);
    assert_eq!((s.config.width, s.config.height), (1024, 768));
    assert_eq!(s.config.present_mode, PresentMode::AutoVsync);
    assert_eq!(s.config.alpha_mode, CompositeAlphaMode::Auto);
    assert_eq!(s.size, PhysicalSize { width: 1024, height: 768 });
}

#[test]
fn redraw_request_asks_for_a_redraw() {
    let mut app = ready();
    assert_eq!(app.window_event(WindowEvent::RedrawRequested), Action::Redraw);
    let action = app.redraw(Ok(()), Elapsed { secs: 0, subsec_nanos: 16_000_000 }, false);
    match action {
        RenderAction::Draw(frame) => {
            assert_eq!(frame.uniforms.screen_size, [800, 600]);
            assert_eq!(frame.index_count, 6);
        }
        other => panic!("expected a frame, got {:?}", other),
    }
    assert_eq!(state(&app).uniforms.time, Elapsed { secs: 0, subsec_nanos: 16_000_000 });
}

#[test]
fn lost_frame_is_cleared_by_the_next_redraw_request() {
    let mut app = ready();
    assert_eq!(app.window_event(WindowEvent::RedrawRequested), Action::Redraw);
    let action = app.redraw(Err(SurfaceError::Lost), Elapsed { secs: 1, subsec_nanos: 0 }, false);
    assert!(matches!(action, RenderAction::Skip));
    assert_eq!(state(&app).phase, Phase::FrameLost);
    assert_eq!(app.window_event(WindowEvent::RedrawRequested), Action::Redraw);
    assert_eq!(state(&app).phase, Phase::Ready);
}

#[test]
fn input_is_ignored() {
    let mut app = ready();
    for event in [WindowEvent::KeyboardInput, WindowEvent::CursorMoved, WindowEvent::Other] {
        assert_eq!(app.window_event(event), Action::Ignore);
        assert_eq!(state(&app).size, PhysicalSize { width: 800, height: 600 });
        assert_eq!(state(&app).phase, Phase::Ready);
    }
}
