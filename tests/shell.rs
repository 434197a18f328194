use triangle_demo::application::{Application, ElementState, Key, Response, WindowEvent, WINDOW_TITLE};
use triangle_demo::graphics::{FrameStep, IndexFormat};

fn activated(width: u32, height: u32) -> Application {
    let mut app = Application::new();
    assert!(app.resumed());
    app.window_created((width, height));
    app
}

fn config_of(app: &Application) -> (u32, u32) {
    let c = app.graphics_context().unwrap().surface_configuration();
    (c.width, c.height)
}

#[test]
fn resize_draw_resize_to_zero_draw() {
    let mut app = activated(640, 480);
    match app.window_event(WindowEvent::Resized { width: 800, height: 600 }) {
        Response::Reconfigure { config } => assert_eq!((config.width, config.height), (800, 600)),
        other => panic!("unexpected {:?}", other),
    }
    assert!(matches!(app.window_event(WindowEvent::RedrawRequested), Response::Render { .. }));
    match app.window_event(WindowEvent::Resized { width: 0, height: 0 }) {
        Response::Reconfigure { config } => assert_eq!((config.width, config.height), (1, 1)),
        other => panic!("unexpected {:?}", other),
    }
    assert!(matches!(app.window_event(WindowEvent::RedrawRequested), Response::Render { .. }));
    assert_eq!(config_of(&app), (1, 1));
}

#[test]
fn close_request_exits() {
    let mut app = activated(800, 600);
    assert!(matches!(app.window_event(WindowEvent::CloseRequested), Response::Exit));
}

#[test]
fn escape_pressed_exits() {
    let mut app = activated(800, 600);
    let event = WindowEvent::KeyboardInput { key: Key::Escape, state: ElementState::Pressed, repeat: false };
    assert!(matches!(app.window_event(event), Response::Exit));
}

#[test]
fn escape_repeat_does_not_exit() {
    let mut app = activated(800, 600);
    let event = WindowEvent::KeyboardInput { key: Key::Escape, state: ElementState::Pressed, repeat: true };
    assert!(matches!(app.window_event(event), Response::Ignore));
}

#[test]
fn escape_released_and_other_keys_do_not_exit() {
    let mut app = activated(800, 600);
    let released = WindowEvent::KeyboardInput { key: Key::Escape, state: ElementState::Released, repeat: false };
    assert!(matches!(app.window_event(released), Response::Ignore));
    let other = WindowEvent::KeyboardInput { key: Key::Other, state: ElementState::Pressed, repeat: false };
    assert!(matches!(app.window_event(other), Response::Ignore));
    assert!(matches!(app.window_event(WindowEvent::Other), Response::Ignore));
}

#[test]
fn redraw_before_activation_is_ignored() {
    let mut app = Application::new();
    assert!(matches!(app.window_event(WindowEvent::RedrawRequested), Response::Ignore));
    assert!(app.graphics_context().is_none());
}

#[test]
fn resize_before_activation_is_ignored() {
    let mut app = Application::default();
    assert!(matches!(app.window_event(WindowEvent::Resized { width: 10, height: 10 }), Response::Ignore));
    assert!(app.graphics_context().is_none());
}

#[test]
fn activation_happens_once() {
    let mut app = activated(300, 200);
    assert!(!app.resumed());
    app.window_created((50, 60));
    assert_eq!(config_of(&app), (300, 200));
}

#[test]
fn redraw_yields_full_frame() {
    let mut app = activated(800, 600);
    match app.window_event(WindowEvent::RedrawRequested) {
        Response::Render { steps } => assert_eq!(
            steps,
            vec![
                FrameStep::AcquireImage,
                FrameStep::BeginPassClearBlack,
                FrameStep::SetPipeline,
                FrameStep::SetVertexBuffer { slot: 0 },
                FrameStep::SetIndexBuffer { format: IndexFormat::Uint16 },
                FrameStep::DrawIndexed { first_index: 0, index_end: 3, base_vertex: 0, first_instance: 0, instance_end: 1 },
                FrameStep::Draw { first_vertex: 0, vertex_end: 3, first_instance: 0, instance_end: 1 },
                FrameStep::EndPass,
                FrameStep::Submit,
                FrameStep::Present,
            ]
        ),
        other => panic!("unexpected {:?}", other),
    }
}

#[test]
fn window_title_is_fixed() {
    assert_eq!(WINDOW_TITLE, "winit example");
}
