//! The host of a game: it owns the renderer, draws frames, recovers from
//! surface errors and decides what a window event means.
//!
//! The host does not touch the window or the surface. Each of its
//! functions says what is to be done, and the platform layer does it.
pub mod multi_cube_demo;

use vstd::prelude::*;
use crate::input::ElementState;
use crate::input::KeyCode;
use crate::input::WindowEvent;
use crate::renderer::Frame;
use crate::renderer::FrameMath;
use crate::renderer::PhysicalSize;
use crate::renderer::Renderer;
use crate::renderer::SurfaceError;
use crate::renderer::SurfaceUpdate;
use crate::renderer::scene::Scene;

verus! {

/// How the cursor is held.
#[derive(Clone, Copy, Debug, PartialEq, Eq, Structural)]
pub enum CursorGrabMode {
    /// The cursor moves freely.
    Free,
    /// The cursor is locked to the window.
    Locked,
}

/// What the platform layer does to the cursor.
#[derive(Clone, Copy, Debug, PartialEq, Eq, Structural)]
pub struct CursorUpdate {
    pub grab: CursorGrabMode,
    pub visible: bool,
}

/// What follows a frame that the surface did not hand out.
#[derive(Clone, Copy, Debug, PartialEq, Eq, Structural)]
pub enum Recovery {
    /// The frame was drawn; nothing to recover from.
    NotNeeded,
    /// The surface was lost or is outdated. The renderer has applied the
    /// current window size once more; the platform layer configures the
    /// surface and makes the depth texture anew as `update` says. There is
    /// no update where the window has no area.
    Reconfigure { update: Option<SurfaceUpdate> },
    /// The error passes: skip this frame and go on.
    SkipFrame,
    /// There is no memory left. The program cannot go on.
    Abort,
}

/// What the platform layer does for one frame.
pub struct HostFrame {
    pub frame: Frame,
    pub recovery: Recovery,
}

/// What the platform layer does after a window event.
#[derive(Clone, Copy, Debug, PartialEq, Eq, Structural)]
pub enum HostAction {
    /// Nothing.
    Nothing,
    /// Leave the event loop.
    Exit,
    /// Ask the window for another redraw, and where `render` is set,
    /// advance the simulation and draw a frame.
    Redraw { render: bool },
    /// Grab or release the cursor.
    SetCursor { cursor: CursorUpdate },
    /// Configure the surface and make the depth texture anew.
    Reconfigure { surface: SurfaceUpdate },
    /// Ask the window for its inner size and hand it to
    /// `scale_factor_changed`.
    QueryInnerSize,
}

/// Dispatches events coming from the underlying platform to the renderer
/// and keeps track of the mouse capture.
pub struct GameAppHost {
    renderer: Renderer,
    mouse_captured: bool,
}

impl GameAppHost {
    /// The renderer.
    pub closed spec fn renderer_spec(&self) -> Renderer {
        self.renderer
    }

    /// Whether the mouse is captured.
    pub closed spec fn captured(&self) -> bool {
        self.mouse_captured
    }

    /// What follows a frame for which acquiring the surface went as
    /// `surface` says, where `resized` is what applying the window size
    /// once more gives.
    pub open spec fn recovery_for(
        surface: Result<(), SurfaceError>,
        resized: Option<SurfaceUpdate>,
    ) -> Recovery {
        match surface {
            Ok(_) => Recovery::NotNeeded,
            Err(SurfaceError::Lost) | Err(SurfaceError::Outdated) => Recovery::Reconfigure {
                update: resized,
            },
            Err(SurfaceError::OutOfMemory) => Recovery::Abort,
            Err(SurfaceError::Timeout) => Recovery::SkipFrame,
        }
    }

    /// The cursor update that goes with capturing or releasing the mouse.
    pub open spec fn cursor_for(is_captured: bool) -> CursorUpdate {
        CursorUpdate {
            grab: if is_captured {
                CursorGrabMode::Locked
            } else {
                CursorGrabMode::Free
            },
            visible: !is_captured,
        }
    }

    /// A host for `renderer`; the mouse is not captured.
    pub fn new(renderer: Renderer) -> (host: Self)
        ensures
            host.renderer_spec() == renderer,
            !host.captured(),
    {
        GameAppHost { renderer, mouse_captured: false }
    }

    /// The renderer.
    pub fn renderer(&self) -> (renderer: &Renderer)
        ensures
            *renderer == self.renderer_spec(),
    {
        &self.renderer
    }

    /// The renderer, to change it. The mouse capture stays as it is.
    pub fn renderer_mut(&mut self) -> (renderer: &mut Renderer)
        ensures
            *renderer == old(self).renderer_spec(),
            final(self).renderer_spec() == *final(renderer),
            final(self).captured() == old(self).captured(),
    {
        &mut self.renderer
    }

    /// Hands a window event to the renderer.
    pub fn input(&mut self, event: &WindowEvent)
        ensures
            final(self).captured() == old(self).captured(),
            final(self).renderer_spec().debug().visualize_depth_pass == (old(
                self
            ).renderer_spec().debug().visualize_depth_pass != event.is_release_of(KeyCode::KeyZ)),
            Renderer::same_resources(&old(self).renderer_spec(), &final(self).renderer_spec()),
            Renderer::same_sizes(&old(self).renderer_spec(), &final(self).renderer_spec()),
    {
        self.renderer.input(event);
    }

    /// Draws one frame and says how to recover where the surface did not
    /// hand one out: a lost or outdated surface is configured anew with
    /// the size that the window has, running out of memory is fatal, and
    /// any other error costs this frame only.
    pub fn render(
        &mut self,
        scene: &mut Scene,
        math: &FrameMath,
        surface: Result<(), SurfaceError>,
    ) -> (out: HostFrame)
        requires
            old(self).renderer_spec().wf(),
            old(self).renderer_spec().can_prepare(old(scene), math),
        ensures
            final(self).captured() == old(self).captured(),
            out.frame.uploads@ == crate::renderer::uploads_for(
                old(scene).models@,
                old(self).renderer_spec().light_debug().dirty() || old(scene).point_lights@.len()
                    > 0,
            ),
            surface is Err ==> out.frame.passes == Err::<
                Vec<crate::renderer::passes::RenderPass>,
                SurfaceError,
            >(surface->Err_0),
            surface is Ok ==> out.frame.passes is Ok && Renderer::frame_passes(
                out.frame.passes->Ok_0@,
                final(scene),
                old(scene).point_lights@.len(),
                old(self).renderer_spec().debug().visualize_depth_pass,
            ),
            out.recovery == Self::recovery_for(
                surface,
                if out.recovery is Reconfigure {
                    out.recovery->update
                } else {
                    None
                },
            ),
            Renderer::resources_prepared(
                &old(self).renderer_spec(),
                &final(self).renderer_spec(),
                old(scene),
                final(scene),
                math,
                if surface is Ok {
                    0nat
                } else {
                    old(scene).point_lights@.len()
                },
            ),
            final(self).renderer_spec().debug() == old(self).renderer_spec().debug(),
            Self::recovered(&old(self).renderer_spec(), &final(self).renderer_spec(), out.recovery),
    {
        let frame = self.renderer.render(scene, math, surface);
        let recovery = match surface {
            Ok(_) => Recovery::NotNeeded,
            Err(SurfaceError::Lost) | Err(SurfaceError::Outdated) => {
                let window_size = self.renderer.window_size();
                Recovery::Reconfigure {
                    update: self.renderer.resize(window_size.width, window_size.height),
                }
            },
            Err(SurfaceError::OutOfMemory) => Recovery::Abort,
            Err(SurfaceError::Timeout) => Recovery::SkipFrame,
        };
        HostFrame { frame, recovery }
    }

    /// What a recovery does to the sizes of a renderer: nothing, unless
    /// the surface is configured anew, and then what a resize to the size
    /// of the window does.
    pub open spec fn recovered(before: &Renderer, after: &Renderer, recovery: Recovery) -> bool {
        match recovery {
            Recovery::Reconfigure { update } => {
                &&& update is Some <==> before.window().width != 0 && before.window().height != 0
                &&& update is None ==> Renderer::same_sizes(before, after)
                &&& update is Some ==> Renderer::resize_taken(
                    before,
                    after,
                    before.window().width,
                    before.window().height,
                    update->Some_0,
                )
            },
            _ => Renderer::same_sizes(before, after),
        }
    }

    /// Handles when the game window ("rendering window") is resized.
    pub fn window_resized(
        &mut self,
        new_width: u32,
        new_height: u32,
    ) -> (update: Option<SurfaceUpdate>)
        ensures
            final(self).captured() == old(self).captured(),
            update is Some <==> new_width != 0 && new_height != 0,
            update is None ==> final(self).renderer_spec() == old(self).renderer_spec(),
            update is Some ==> Renderer::resize_taken(
                &old(self).renderer_spec(),
                &final(self).renderer_spec(),
                new_width,
                new_height,
                update->Some_0,
            ),
            Renderer::same_resources(&old(self).renderer_spec(), &final(self).renderer_spec()),
            final(self).renderer_spec().debug() == old(self).renderer_spec().debug(),
    {
        self.renderer.resize(new_width, new_height)
    }

    /// Handles when the scale factor of the window has changed: the
    /// renderer takes the inner size that the window has now.
    pub fn scale_factor_changed(
        &mut self,
        inner_size: PhysicalSize,
    ) -> (update: Option<SurfaceUpdate>)
        ensures
            final(self).captured() == old(self).captured(),
            update is Some <==> inner_size.width != 0 && inner_size.height != 0,
            update is None ==> final(self).renderer_spec() == old(self).renderer_spec(),
            update is Some ==> Renderer::resize_taken(
                &old(self).renderer_spec(),
                &final(self).renderer_spec(),
                inner_size.width,
                inner_size.height,
                update->Some_0,
            ),
            Renderer::same_resources(&old(self).renderer_spec(), &final(self).renderer_spec()),
            final(self).renderer_spec().debug() == old(self).renderer_spec().debug(),
    {
        self.renderer.resize(inner_size.width, inner_size.height)
    }

    /// Whether the mouse is captured.
    pub fn is_mouse_captured(&self) -> (captured: bool)
        ensures
            captured == self.captured(),
    {
        self.mouse_captured
    }

    /// Captures or releases the mouse. A captured mouse is locked to the
    /// window and hidden.
    pub fn set_mouse_captured(&mut self, is_captured: bool) -> (update: CursorUpdate)
        ensures
            update == Self::cursor_for(is_captured),
            final(self).captured() == is_captured,
            final(self).renderer_spec() == old(self).renderer_spec(),
    {
        self.mouse_captured = is_captured;
        CursorUpdate {
            grab: if is_captured {
                CursorGrabMode::Locked
            } else {
                CursorGrabMode::Free
            },
            visible: !is_captured,
        }
    }

    /// What a window event asks of the platform layer, given whether the
    /// mouse is captured and whether the surface is configured.
    pub open spec fn action_for(
        event: WindowEvent,
        mouse_captured: bool,
        surface_configured: bool,
        resized: Option<SurfaceUpdate>,
    ) -> HostAction {
        match event {
            WindowEvent::RedrawRequested => HostAction::Redraw { render: surface_configured },
            WindowEvent::CloseRequested => HostAction::Exit,
            WindowEvent::KeyboardInput { physical_key, is_escape, state } => {
                if is_escape && state == ElementState::Released {
                    if mouse_captured {
                        HostAction::SetCursor { cursor: Self::cursor_for(false) }
                    } else {
                        HostAction::Exit
                    }
                } else {
                    HostAction::Nothing
                }
            },
            WindowEvent::MouseInput { button, state } => {
                if state == ElementState::Pressed && !mouse_captured {
                    HostAction::SetCursor { cursor: Self::cursor_for(true) }
                } else {
                    HostAction::Nothing
                }
            },
            WindowEvent::Focused { focused } => HostAction::SetCursor {
                cursor: Self::cursor_for(focused),
            },
            WindowEvent::Resized { width, height } => match resized {
                Some(update) => HostAction::Reconfigure { surface: update },
                None => HostAction::Nothing,
            },
            WindowEvent::ScaleFactorChanged => HostAction::QueryInnerSize,
            WindowEvent::Other => HostAction::Nothing,
        }
    }

    /// Whether the mouse is captured after a window event.
    pub open spec fn captured_after(event: WindowEvent, mouse_captured: bool) -> bool {
        match event {
            WindowEvent::KeyboardInput { physical_key, is_escape, state } => mouse_captured && !(
            is_escape && state == ElementState::Released),
            WindowEvent::MouseInput { button, state } => mouse_captured || state
                == ElementState::Pressed,
            WindowEvent::Focused { focused } => focused,
            _ => mouse_captured,
        }
    }

    /// Takes an event of the renderer's window: hands it to the renderer
    /// as input, then decides what it means. Escape releases a captured
    /// mouse and else ends the program; a mouse button captures the
    /// mouse; the mouse follows the focus; a new size goes to the
    /// renderer.
    pub fn window_event(
        &mut self,
        event: &WindowEvent,
        surface_configured: bool,
    ) -> (action: HostAction)
        ensures
            final(self).captured() == Self::captured_after(*event, old(self).captured()),
            action == Self::action_for(
                *event,
                old(self).captured(),
                surface_configured,
                if action is Reconfigure {
                    Some(action->surface)
                } else {
                    None
                },
            ),
            final(self).renderer_spec().debug().visualize_depth_pass == (old(
                self
            ).renderer_spec().debug().visualize_depth_pass != event.is_release_of(KeyCode::KeyZ)),
            Renderer::same_resources(&old(self).renderer_spec(), &final(self).renderer_spec()),
            *event matches WindowEvent::Resized { width, height } ==> {
                &&& action is Reconfigure <==> width != 0 && height != 0
                &&& action is Reconfigure ==> Renderer::resize_taken(
                    &old(self).renderer_spec(),
                    &final(self).renderer_spec(),
                    width,
                    height,
                    action->surface,
                )
            },
            !(action is Reconfigure) ==> Renderer::same_sizes(
                &old(self).renderer_spec(),
                &final(self).renderer_spec(),
            ),
    {
        self.input(event);
        match *event {
            WindowEvent::RedrawRequested => HostAction::Redraw { render: surface_configured },
            WindowEvent::CloseRequested => HostAction::Exit,
            WindowEvent::KeyboardInput { physical_key, is_escape, state } => {
                if is_escape && state == ElementState::Released {
                    if self.is_mouse_captured() {
                        HostAction::SetCursor { cursor: self.set_mouse_captured(false) }
                    } else {
                        HostAction::Exit
                    }
                } else {
                    HostAction::Nothing
                }
            },
            WindowEvent::MouseInput { button, state } => {
                if state == ElementState::Pressed && !self.is_mouse_captured() {
                    HostAction::SetCursor { cursor: self.set_mouse_captured(true) }
                } else {
                    HostAction::Nothing
                }
            },
            WindowEvent::Focused { focused } => HostAction::SetCursor {
                cursor: self.set_mouse_captured(focused),
            },
            WindowEvent::Resized { width, height } => {
                match self.window_resized(width, height) {
                    Some(update) => HostAction::Reconfigure { surface: update },
                    None => HostAction::Nothing,
                }
            },
            WindowEvent::ScaleFactorChanged => HostAction::QueryInnerSize,
            WindowEvent::Other => HostAction::Nothing,
        }
    }
}

} // verus!
