use vstd::prelude::*;
use crate::graphics::{
    frame_steps, initial_context, resized, ContextView, FrameStep, GraphicsContext, SurfaceConfig,
};

verus! {

/// Title of the window that the shell opens.
pub const WINDOW_TITLE: &'static str = "winit example";

/// The logical key of a keyboard event, as far as the shell tells keys apart.
#[derive(Clone, Copy, Debug, PartialEq, Eq, Structural)]
pub enum Key {
    Escape,
    Other,
}

/// Whether a key went down or up.
#[derive(Clone, Copy, Debug, PartialEq, Eq, Structural)]
pub enum ElementState {
    Pressed,
    Released,
}

/// A window-system event delivered to the shell.
#[derive(Clone, Copy, Debug, PartialEq, Eq, Structural)]
pub enum WindowEvent {
    /// The drawable area is now `width` by `height` pixels.
    Resized { width: u32, height: u32 },
    /// A key event; `repeat` is set for auto-repeat.
    KeyboardInput { key: Key, state: ElementState, repeat: bool },
    /// The window asks to be drawn.
    RedrawRequested,
    /// The user asks to close the window.
    CloseRequested,
    /// Any event the shell does not act on.
    Other,
}

/// What the shell asks of the event loop and the GPU after an event.
#[derive(Debug)]
pub enum Response {
    /// Nothing to do.
    Ignore,
    /// Reconfigure the surface with `config`, then request a redraw.
    Reconfigure { config: SurfaceConfig },
    /// Perform the frame `steps` in order.
    Render { steps: Vec<FrameStep> },
    /// Leave the event loop; the process ends with code 0.
    Exit,
}

/// Whether `event` is the Escape key pressed down, not by auto-repeat.
pub open spec fn is_exit_key(event: WindowEvent) -> bool {
    event == (WindowEvent::KeyboardInput { key: Key::Escape, state: ElementState::Pressed, repeat: false })
}

/// The shell: the graphics context of its window, once it has one.
pub struct Application {
    graphics_context: Option<GraphicsContext>,
}

impl Application {
    /// The graphics context of the window, if one was created.
    pub closed spec fn context(&self) -> Option<ContextView> {
        match self.graphics_context {
            Some(c) => Some(c@),
            None => None,
        }
    }

    /// Every context the shell holds is well formed.
    pub open spec fn wf(&self) -> bool {
        self.context() is Some ==> self.context()->Some_0.wf()
    }

    /// A shell with no window yet.
    pub fn new() -> (r: Application)
        ensures
            r.context() is None,
            r.wf(),
    {
        Application { graphics_context: None }
    }

    /// Whether activation must open the window: only when none exists yet.
    pub fn resumed(&self) -> (r: bool)
        ensures
            r == (self.context() is None),
    {
        self.graphics_context.is_none()
    }

    /// Sets up the graphics context for the window just opened, whose
    /// drawable size is `window_size`. A shell that has one keeps it.
    pub fn window_created(&mut self, window_size: (u32, u32))
        ensures
            old(self).wf() ==> final(self).wf(),
            old(self).context() is Some ==> final(self).context() == old(self).context(),
            old(self).context() is None ==> final(self).context() == Some(
                initial_context(window_size, final(self).context()->Some_0.index_bytes),
            ),
    {
        if self.graphics_context.is_none() {
            self.graphics_context = Some(GraphicsContext::new(window_size));
        }
    }

    /// Reacts to one window event. A resize reconfigures the surface of an
    /// existing context and asks for a redraw; a redraw request draws a frame
    /// if there is a context; the close request and Escape pressed without
    /// auto-repeat end the loop; everything else, and a resize or redraw
    /// before activation, is ignored.
    pub fn window_event(&mut self, event: WindowEvent) -> (r: Response)
        ensures
            old(self).wf() ==> final(self).wf(),
            match event {
                WindowEvent::Resized { width, height } => match old(self).context() {
                    Some(c) => {
                        &&& final(self).context() == Some(resized(c, (width, height)))
                        &&& r == (Response::Reconfigure { config: resized(c, (width, height)).config })
                    },
                    None => final(self).context() is None && r is Ignore,
                },
                WindowEvent::RedrawRequested => {
                    &&& final(self).context() == old(self).context()
                    &&& match old(self).context() {
                        Some(c) => r is Render && r->steps@ == frame_steps(
                            c.indices.len() as u32,
                            c.vertex_count,
                        ),
                        None => r is Ignore,
                    }
                },
                WindowEvent::CloseRequested => final(self).context() == old(self).context()
                    && r is Exit,
                _ => {
                    &&& final(self).context() == old(self).context()
                    &&& is_exit_key(event) ==> r is Exit
                    &&& !is_exit_key(event) ==> r is Ignore
                },
            },
    {
        match event {
            WindowEvent::Resized { width, height } => {
                match self.graphics_context.as_mut() {
                    Some(c) => {
                        c.resize((width, height));
                        Response::Reconfigure { config: c.surface_configuration() }
                    },
                    None => Response::Ignore,
                }
            },
            WindowEvent::KeyboardInput { key, state, repeat } => {
                if key == Key::Escape && state == ElementState::Pressed && !repeat {
                    Response::Exit
                } else {
                    Response::Ignore
                }
            },
            WindowEvent::RedrawRequested => {
                match self.graphics_context.as_mut() {
                    Some(c) => Response::Render { steps: c.draw() },
                    None => Response::Ignore,
                }
            },
            WindowEvent::CloseRequested => Response::Exit,
            WindowEvent::Other => Response::Ignore,
        }
    }

    /// The window's graphics context, once it exists.
    pub fn graphics_context(&self) -> (r: Option<&GraphicsContext>)
        ensures
            match r {
                Some(c) => self.context() == Some(c@),
                None => self.context() is None,
            },
    {
        self.graphics_context.as_ref()
    }
}

impl Default for Application {
    fn default() -> (r: Application)
        ensures
            r.context() is None,
            r.wf(),
    {
        Application::new()
    }
}

} // verus!
