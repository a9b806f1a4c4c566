use elements::api::RecordedCall;
use elements::application::{Application, Renderer, WindowEvent};
use elements::extent::Extent;
use elements::frame::{FrameResult, WindowState};
use elements::input::{ElementState, Input, MouseButton, PhysicalKey};
use elements::recording_api::{CallKind, RecordingApi};
use elements::renderer::RenderError;
use elements::surface::{
    ChainError, ColorFormat, ColorSpace, CompositeAlpha, PresentMode, SurfaceFormat,
    SurfaceSupport,
};
use elements::ubo::UniformBufferObject;
use elements::vertex::{ElmVec2, ElmVec3, ElmVertex};
use elements::window::Window;

const UNIFORMS: UniformBufferObject =
    UniformBufferObject { model: [0; 16], view: [0; 16], proj: [0; 16] };
const SIZE: Extent = Extent { width: 800, height: 600 };

fn support() -> SurfaceSupport {
    SurfaceSupport {
        min_image_count: 2,
        formats: vec![SurfaceFormat {
            format: ColorFormat::Rgba8Srgb,
            color_space: ColorSpace::SrgbNonLinear,
        }],
        present_modes: vec![PresentMode::Fifo],
        composite_alpha: vec![CompositeAlpha::Opaque],
    }
}

fn shown(extent: Extent) -> WindowState {
    WindowState { minimized: Some(false), extent }
}

fn started() -> Application<RecordingApi> {
    let mut app = Application::new();
    app.set_window(Window::new(800, 600, Some(false)));
    app.run(RecordingApi::new(3), &support(), SIZE).unwrap();
    app
}

#[test]
fn new_application_has_input_and_no_window() {
    let app: Application<RecordingApi> = Application::new();
    assert!(app.resources().has::<Input>());
    assert!(!app.resources().has::<Window>());
    assert!(app.renderer().renderer().is_none());
}

#[test]
fn events_reach_window_and_input() {
    let mut app = started();
    let key = PhysicalKey { code: 17 };
    app.handle_window_event(WindowEvent::Focused(true));
    app.handle_window_event(WindowEvent::KeyboardInput { key, state: ElementState::Pressed });
    app.handle_window_event(WindowEvent::MouseInput {
        state: ElementState::Pressed,
        button: MouseButton::Right,
    });
    app.handle_window_event(WindowEvent::CursorMoved { x: 3, y: 4 });
    app.handle_window_event(WindowEvent::Other);
    assert!(app.resources().get::<Window>().is_focused());
    assert!(app.resources().get::<Input>().is_key_pressed(key));
    assert!(app.resources().get::<Input>().was_key_just_pressed(key));
    assert!(app.resources().get::<Input>().is_mouse_button_pressed(MouseButton::Right));
    assert_eq!(app.resources().get::<Input>().mouse_position(), (3, 4));
    assert!(!app.renderer().renderer().unwrap().needs_recreate());
}

#[test]
fn resize_has_the_chain_rebuilt_before_the_next_frame() {
    let mut app = started();
    app.handle_window_event(WindowEvent::Resized { width: 1024, height: 768 });
    assert_eq!(app.resources().get::<Window>().get_size(), (1024, 768));
    assert!(app.renderer().renderer().unwrap().needs_recreate());
    let resized = Extent { width: 1024, height: 768 };
    let report = app.on_update(shown(resized), &UNIFORMS).unwrap();
    assert_eq!(report.recreate, Some(true));
    assert_eq!(report.result(), FrameResult::Presented);
    let renderer = app.renderer().renderer().unwrap();
    assert!(!renderer.needs_recreate());
    assert_eq!(renderer.viewport(), Some(resized));
}

#[test]
fn update_draws_and_forgets_what_was_just_pressed() {
    let mut app = started();
    let key = PhysicalKey { code: 1 };
    app.handle_window_event(WindowEvent::KeyboardInput { key, state: ElementState::Pressed });
    let report = app.on_update(shown(SIZE), &UNIFORMS).unwrap();
    assert_eq!(report.result(), FrameResult::Presented);
    assert!(app.resources().get::<Input>().is_key_pressed(key));
    assert!(!app.resources().get::<Input>().was_key_just_pressed(key));
    assert_eq!(app.renderer().renderer().unwrap().current_frame(), Some(1));
}

#[test]
fn update_of_a_minimized_window_draws_nothing() {
    let mut app = started();
    let before = app.renderer().renderer().unwrap().api().recorded().len();
    let minimized = WindowState { minimized: Some(true), extent: SIZE };
    let report = app.on_update(minimized, &UNIFORMS).unwrap();
    assert_eq!(report.result(), FrameResult::Skipped);
    assert_eq!(app.renderer().renderer().unwrap().api().recorded().len(), before);
}

#[test]
fn update_without_renderer_only_prepares_the_input() {
    let mut app: Application<RecordingApi> = Application::new();
    let key = PhysicalKey { code: 9 };
    app.handle_window_event(WindowEvent::KeyboardInput { key, state: ElementState::Released });
    assert!(app.resources().get::<Input>().was_key_just_released(key));
    assert_eq!(app.on_update(shown(SIZE), &UNIFORMS), None);
    assert!(!app.resources().get::<Input>().was_key_just_released(key));
}

#[test]
fn renderer_that_could_not_start_refuses_frames() {
    let mut api = RecordingApi::new(3);
    api.fail(CallKind::CreateChain);
    let mut renderer = Renderer::new();
    assert_eq!(
        renderer.run(api, &support(), SIZE),
        Err(RenderError::Chain(ChainError::Device))
    );
    assert!(renderer.renderer().is_some());
    assert_eq!(renderer.on_update(shown(SIZE), &UNIFORMS), None);
    renderer.request_recreate();
    assert!(!renderer.renderer().unwrap().needs_recreate());
}

#[test]
fn meshes_are_uploaded_through_the_running_renderer() {
    let mut app = started();
    let vertex = ElmVertex {
        position: ElmVec3 { x: 0, y: 0, z: 0 },
        color: ElmVec3 { x: 0, y: 0, z: 0 },
        tex_coord: ElmVec2 { x: 0, y: 0 },
    };
    let renderer = app.renderer_mut().renderer_mut().unwrap();
    assert_eq!(
        elements::frame::RenderBackend::upload_mesh(renderer, &vec![vertex; 3], &vec![0, 1, 2]),
        Ok(0)
    );
    let report = app.on_update(shown(SIZE), &UNIFORMS).unwrap();
    assert_eq!(report.draws, 1);
    let recorded = app.renderer().renderer().unwrap().api().recorded();
    assert!(recorded.iter().any(|call| matches!(call, RecordedCall::DrawIndexed { index_count: 3, .. })));
}
