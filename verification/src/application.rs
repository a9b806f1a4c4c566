//! The engine around the renderer: the registry of shared objects, the
//! events of the window and the update that happens once for each frame.

use crate::api::GraphicsApi;
use crate::extent::Extent;
use crate::frame::{FrameReport, ScheduleState, WindowState};
use crate::input::{ElementState, Input, InputState, MouseButton, PhysicalKey};
use crate::renderer::{RenderError, RendererView, VulkanRenderer};
use crate::resource_manager::{Resource, ResourceManager, Resources};
use crate::surface::SurfaceSupport;
use crate::ubo::UniformBufferObject;
use crate::window::{Window, WindowView};
use vstd::prelude::*;

verus! {

/// The renderer of the engine, once it runs.
pub struct Renderer<G: GraphicsApi> {
    vk_renderer: Option<VulkanRenderer<G>>,
}

impl<G: GraphicsApi> View for Renderer<G> {
    type V = Option<RendererView>;

    closed spec fn view(&self) -> Option<RendererView> {
        match self.vk_renderer {
            Some(renderer) => Some(renderer@),
            None => None,
        }
    }
}

impl<G: GraphicsApi> Renderer<G> {
    /// A renderer that does not run yet.
    pub fn new() -> (renderer: Renderer<G>)
        ensures
            renderer@.is_none(),
    {
        Renderer { vk_renderer: None }
    }

    /// Starts the renderer on a graphics API and sets up its render context
    /// for a surface of the given support and size.
    ///
    /// The renderer runs on `api` afterwards, whether the context could be
    /// set up or not; where it could not, the error says why and every frame
    /// is refused until it is.
    pub fn run(&mut self, api: G, support: &SurfaceSupport, window_size: Extent) -> (r: Result<
        (),
        RenderError,
    >)
        ensures
            final(self)@ matches Some(renderer) && RendererView::fresh().set_up(
                *support,
                window_size,
                r,
                renderer,
            ),
            final(self)@ matches Some(renderer) && renderer.wf() && (r is Ok)
                == renderer.context.is_some(),
            r is Ok ==> (final(self)@ matches Some(renderer) && renderer.context matches Some(
                context,
            ) && context.viewport == window_size && context.schedule.current_frame == 0
                && !context.schedule.needs_recreate),
    {
        let mut renderer = VulkanRenderer::new(api);
        let r = renderer.initialize_render_context(support, window_size);
        self.vk_renderer = Some(renderer);
        r
    }

    /// The renderer, once it runs.
    pub fn renderer(&self) -> (r: Option<&VulkanRenderer<G>>)
        ensures
            match r {
                Some(renderer) => self@ == Some(renderer@),
                None => self@.is_none(),
            },
    {
        match &self.vk_renderer {
            Some(renderer) => Some(renderer),
            None => None,
        }
    }

    /// The renderer for uploads, once it runs.
    pub fn renderer_mut(&mut self) -> (r: Option<&mut VulkanRenderer<G>>)
        ensures
            match r {
                Some(renderer) => old(self)@ == Some(renderer@) && final(self)@ == Some(
                    final(renderer)@,
                ),
                None => old(self)@.is_none() && final(self)@.is_none(),
            },
    {
        match &mut self.vk_renderer {
            Some(renderer) => Some(renderer),
            None => None,
        }
    }

    /// Draws one frame, where the renderer runs and its context is set up;
    /// nothing is done otherwise.
    pub fn on_update(&mut self, window: WindowState, uniforms: &UniformBufferObject) -> (report: Option<
        FrameReport,
    >)
        requires
            old(self)@ matches Some(renderer) ==> renderer.wf(),
        ensures
            final(self)@ matches Some(renderer) ==> renderer.wf(),
            match old(self)@ {
                None => report.is_none() && final(self)@.is_none(),
                Some(before) => final(self)@ matches Some(after) && match before.context {
                    None => report.is_none() && after == before,
                    Some(context) => report matches Some(report) && after.context matches Some(
                        drawn,
                    ) && {
                        &&& before.frame(window, *uniforms, report, after)
                        &&& report.staged(context.schedule, window, before.resources.meshes.len())
                        &&& drawn.schedule == context.schedule.after(window, report)
                        &&& !window.drawable() ==> after.calls == before.calls
                    },
                },
            },
    {
        match &mut self.vk_renderer {
            Some(renderer) => match renderer.draw_frame(window, uniforms) {
                Ok(report) => Some(report),
                Err(_) => None,
            },
            None => None,
        }
    }

    /// Asks for the presentation chain to be rebuilt before the next
    /// acquisition.
    pub fn request_recreate(&mut self)
        requires
            old(self)@ matches Some(renderer) ==> renderer.wf(),
        ensures
            final(self)@ matches Some(renderer) ==> renderer.wf(),
            match old(self)@ {
                None => final(self)@.is_none(),
                Some(before) => final(self)@ == Some(
                    match before.context {
                        None => before,
                        Some(context) => before.scheduled(
                            ScheduleState { needs_recreate: true, ..context.schedule },
                        ),
                    },
                ),
            },
    {
        match &mut self.vk_renderer {
            Some(renderer) => {
                renderer.request_recreate();
            },
            None => {},
        }
    }
}

/// What the platform reports of the window.
#[derive(Clone, Copy, Debug, PartialEq, Eq, Structural)]
pub enum WindowEvent {
    /// The window gained or lost the focus.
    Focused(bool),
    /// The window has a new size.
    Resized { width: u32, height: u32 },
    /// A key went down or up.
    KeyboardInput { key: PhysicalKey, state: ElementState },
    /// A mouse button went down or up.
    MouseInput { state: ElementState, button: MouseButton },
    /// The cursor moved; the position is given as the bit patterns of two
    /// 64-bit IEEE-754 numbers.
    CursorMoved { x: u64, y: u64 },
    /// Any other event.
    Other,
}

/// The engine: its shared objects and its renderer.
pub struct Application<G: GraphicsApi> {
    resources: ResourceManager,
    renderer: Renderer<G>,
}

/// An application as plain values.
pub struct ApplicationView {
    pub resources: Resources,
    pub renderer: Option<RendererView>,
}

impl ApplicationView {
    /// The input state is registered, and the renderer is well-formed.
    pub open spec fn wf(self) -> bool {
        &&& self.resources.input.is_some()
        &&& self.renderer matches Some(renderer) ==> renderer.wf()
    }

    /// The registry after an event: focus and size go to the window, keys,
    /// buttons and cursor to the input state.
    pub open spec fn resources_after(self, event: WindowEvent) -> Resources {
        match event {
            WindowEvent::Focused(focused) => Resources {
                window: Some(WindowView { focused, ..self.resources.window->Some_0 }),
                ..self.resources
            },
            WindowEvent::Resized { width, height } => Resources {
                window: Some(WindowView { width, height, ..self.resources.window->Some_0 }),
                ..self.resources
            },
            WindowEvent::KeyboardInput { key, state } => Resources {
                input: Some(self.resources.input->Some_0.after_key(key, state)),
                ..self.resources
            },
            WindowEvent::MouseInput { state, button } => Resources {
                input: Some(self.resources.input->Some_0.after_button(state, button)),
                ..self.resources
            },
            WindowEvent::CursorMoved { x, y } => Resources {
                input: Some(InputState { mouse_pos: (x, y), ..self.resources.input->Some_0 }),
                ..self.resources
            },
            WindowEvent::Other => self.resources,
        }
    }
}

impl<G: GraphicsApi> View for Application<G> {
    type V = ApplicationView;

    closed spec fn view(&self) -> ApplicationView {
        ApplicationView { resources: self.resources@, renderer: self.renderer@ }
    }
}

impl<G: GraphicsApi> Application<G> {
    /// An application with its input state registered, without a window and
    /// with a renderer that does not run yet.
    pub fn new() -> (app: Application<G>)
        ensures
            app@.wf(),
            app@.resources == (Resources { window: None, input: Some(InputState::idle()) }),
            app@.renderer.is_none(),
    {
        let mut resources = ResourceManager::new();
        resources.add(Input::new());
        Application { resources, renderer: Renderer::new() }
    }

    /// Registers the window.
    pub fn set_window(&mut self, window: Window)
        ensures
            final(self)@ == (ApplicationView {
                resources: Resources { window: Some(window@), ..old(self)@.resources },
                ..old(self)@
            }),
    {
        self.resources.add(window);
    }

    /// The shared objects.
    pub fn resources(&self) -> (resources: &ResourceManager)
        ensures
            resources@ == self@.resources,
    {
        &self.resources
    }

    /// The renderer.
    pub fn renderer(&self) -> (renderer: &Renderer<G>)
        ensures
            renderer@ == self@.renderer,
    {
        &self.renderer
    }

    /// The renderer, for uploads.
    pub fn renderer_mut(&mut self) -> (renderer: &mut Renderer<G>)
        ensures
            renderer@ == old(self)@.renderer,
            final(self)@ == (ApplicationView { renderer: final(renderer)@, ..old(self)@ }),
    {
        &mut self.renderer
    }

    /// Takes note of an event of the window.
    ///
    /// Focus and size are recorded in the window, keys, buttons and cursor
    /// in the input state. A new size also has the presentation chain
    /// rebuilt before the next frame acquires an image. Events of the
    /// window's focus and size need the window to be registered.
    pub fn handle_window_event(&mut self, event: WindowEvent)
        requires
            old(self)@.wf(),
            event is Focused || event is Resized ==> old(self)@.resources.window.is_some(),
        ensures
            final(self)@.wf(),
            final(self)@.resources == old(self)@.resources_after(event),
            !(event is Resized) ==> final(self)@.renderer == old(self)@.renderer,
            event is Resized ==> match old(self)@.renderer {
                None => final(self)@.renderer.is_none(),
                Some(before) => final(self)@.renderer matches Some(after) && after.calls
                    == before.calls && match before.context {
                    None => after.context.is_none(),
                    Some(context) => after.context matches Some(asked)
                        && asked.schedule.needs_recreate,
                },
            },
    {
        match event {
            WindowEvent::Focused(is_focused) => {
                self.resources.get_mut::<Window>().set_focused(is_focused);
            },
            WindowEvent::Resized { width, height } => {
                self.resources.get_mut::<Window>().set_size(width, height);
                self.renderer.request_recreate();
            },
            WindowEvent::KeyboardInput { key, state } => {
                self.resources.get_mut::<Input>().handle_keyboard_input(key, state);
            },
            WindowEvent::MouseInput { state, button } => {
                self.resources.get_mut::<Input>().handle_mouse_input(state, button);
            },
            WindowEvent::CursorMoved { x, y } => {
                self.resources.get_mut::<Input>().handle_cursor(x, y);
            },
            WindowEvent::Other => {},
        }
    }

    /// Starts the renderer as `Renderer::run` does.
    pub fn run(&mut self, api: G, support: &SurfaceSupport, window_size: Extent) -> (r: Result<
        (),
        RenderError,
    >)
        requires
            old(self)@.wf(),
        ensures
            final(self)@.wf(),
            final(self)@.resources == old(self)@.resources,
            final(self)@.renderer matches Some(renderer) && RendererView::fresh().set_up(
                *support,
                window_size,
                r,
                renderer,
            ),
            final(self)@.renderer matches Some(renderer) && (r is Ok) == renderer.context.is_some(),
    {
        self.renderer.run(api, support, window_size)
    }

    /// What happens once for each frame: the renderer draws, and the input
    /// state forgets what was just pressed and released.
    pub fn on_update(&mut self, window: WindowState, uniforms: &UniformBufferObject) -> (report: Option<
        FrameReport,
    >)
        requires
            old(self)@.wf(),
        ensures
            final(self)@.wf(),
            final(self)@.resources == (Resources {
                input: Some(
                    InputState {
                        keys_just_pressed: Set::empty(),
                        keys_just_released: Set::empty(),
                        ..old(self)@.resources.input->Some_0
                    },
                ),
                ..old(self)@.resources
            }),
            match old(self)@.renderer {
                None => report.is_none() && final(self)@.renderer.is_none(),
                Some(before) => final(self)@.renderer matches Some(after) && match before.context {
                    None => report.is_none() && after == before,
                    Some(context) => report matches Some(report) && after.context matches Some(
                        drawn,
                    ) && {
                        &&& before.frame(window, *uniforms, report, after)
                        &&& report.staged(context.schedule, window, before.resources.meshes.len())
                        &&& drawn.schedule == context.schedule.after(window, report)
                        &&& !window.drawable() ==> after.calls == before.calls
                    },
                },
            },
    {
        let report = self.renderer.on_update(window, uniforms);
        self.resources.get_mut::<Input>().prepare_for_next_frame();
        report
    }
}

} // verus!
