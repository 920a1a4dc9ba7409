//! The view controller: it owns the viewport and the running and dirty
//! flags, resolves events into commands, applies them, and computes the
//! draw instructions the backend carries out.

use vstd::prelude::*;
use crate::config::action::Action;
use crate::config::color::Color;
use crate::config::keymap::KeyMap;
use crate::config::keys::KeyBind;
use crate::config::Config;
use crate::geometry::Rect;
use crate::gui::background::{background_rects, spec_background_cells};
use crate::gui::event::Event;
use crate::gui::viewport::Viewport;

verus! {

/// Commands extend the basic [`Action`] enum with more advanced options.
///
/// This is made necessary by mouse interaction: actions only define
/// shifts (translations by fixed amounts), whereas the mouse moves the
/// image fluidly.
#[derive(Clone, Copy, Debug, PartialEq, Eq, Structural)]
pub enum Command {
    /// Translate the image by an arbitrary distance.
    Translate(i32, i32),
    /// Wraps a basic action so it can be passed through.
    Wrap(Action),
}

/// A side effect only the backend can perform, requested by the core.
#[derive(Clone, Copy, Debug, PartialEq, Eq, Structural)]
pub enum BackendRequest {
    /// Toggle the window's fullscreen state.
    ToggleFullscreen,
}

/// One frame's draw instructions: clear in the light color, fill the dark
/// cells, then blit the image into its destination rectangle (the backend
/// clips whatever extends beyond the canvas).
#[derive(Clone, Debug)]
pub struct Frame {
    /// The color the whole canvas is cleared in.
    pub clear_color: Color,
    /// The color of the dark checkerboard cells.
    pub cell_color: Color,
    /// The dark checkerboard cells.
    pub cells: Vec<Rect>,
    /// Where the image lands, canvas-absolute.
    pub image_dest: Rect,
}

/// What an event resolves to under a keymap: a held-button pointer motion
/// pans, a bound key wraps its action, everything else resolves to
/// nothing.
pub open spec fn spec_resolve(event: Event, binds: Map<i32, Action>) -> Option<Command> {
    match event {
        Event::MouseMotion { left_held, xrel, yrel } => if left_held {
            Some(Command::Translate(xrel, yrel))
        } else {
            None
        },
        Event::KeyDown { keycode } => match keycode {
            Some(k) => if binds.contains_key(k.0) {
                Some(Command::Wrap(binds[k.0]))
            } else {
                None
            },
            None => None,
        },
        _ => None,
    }
}

impl Command {
    /// Builds a command from an event, using the given keybind set:
    /// pointer motion with the primary button held becomes a translation,
    /// a key-down of a bound key becomes its action, and every other event
    /// resolves to nothing.
    pub fn try_from_event_using_keymap(event: &Event, binds: &KeyMap) -> (r: Option<Command>)
        ensures
            r == spec_resolve(*event, binds@),
    {
        match event {
            Event::MouseMotion { left_held, xrel, yrel } => if *left_held {
                Some(Command::Translate(*xrel, *yrel))
            } else {
                None
            },
            Event::KeyDown { keycode } => match keycode {
                Some(k) => match binds.get(k) {
                    Some(action) => Some(Command::Wrap(*action)),
                    None => None,
                },
                None => None,
            },
            _ => None,
        }
    }
}

/// Law: resolution through the keymap. A key-down of a bound key resolves
/// to exactly the bound action wrapped as a command; a key-down of an
/// unbound key resolves to nothing; a pointer motion without the primary
/// button held resolves to nothing.
pub proof fn lemma_keymap_resolution(binds: Map<i32, Action>, k: KeyBind, xrel: i32, yrel: i32)
    ensures
        binds.contains_key(k.0) ==> spec_resolve(Event::KeyDown { keycode: Some(k) }, binds)
            == Some(Command::Wrap(binds[k.0])),
        !binds.contains_key(k.0) ==> spec_resolve(Event::KeyDown { keycode: Some(k) }, binds)
            is None,
        spec_resolve(Event::MouseMotion { left_held: false, xrel, yrel }, binds) is None,
{
}

/// The app view: the state machine that owns the viewport and decides
/// when the backend must redraw.
pub struct AppView {
    /// The viewer's settings.
    pub config: Config,
    /// Placement and zoom of the displayed image.
    pub viewport: Viewport,
    /// If true, the view has changed and the window should be redrawn.
    pub dirty: bool,
    /// If false, the app has exited and the window should be closed.
    pub running: bool,
}

impl AppView {
    /// Well-formedness: the viewport is well-formed and the grid has cells
    /// to cover the canvas with.
    pub open spec fn wf(self) -> bool {
        &&& self.viewport.wf()
        &&& self.config.grid.size >= 1
    }

    /// Constructs the view of a freshly loaded image: centered, unzoomed,
    /// running, and in need of a first draw.
    pub fn new(config: Config, image_width: u32, image_height: u32) -> (view: AppView)
        requires
            config.grid.size >= 1,
            image_width <= i32::MAX as u32,
            image_height <= i32::MAX as u32,
        ensures
            view.wf(),
            view.config == config,
            view.viewport == Viewport::spec_new(image_width, image_height),
            view.dirty,
            view.running,
    {
        AppView {
            config,
            viewport: Viewport::new(image_width, image_height),
            dirty: true,
            running: true,
        }
    }

    /// Check if the app is running or terminated.
    pub fn is_running(&self) -> (r: bool)
        ensures
            r == self.running,
    {
        self.running
    }

    /// The state and side-effect request a command leads to.
    pub open spec fn spec_do_command(self, command: Command, canvas_width: u32, canvas_height: u32) -> (
        AppView,
        Option<BackendRequest>,
    ) {
        let shift = self.config.shift_amount as int;
        match command {
            Command::Translate(dx, dy) => (
                self.spec_translated(dx as int, dy as int, canvas_width, canvas_height),
                None,
            ),
            Command::Wrap(action) => match action {
                Action::ShiftUp => (
                    self.spec_translated(0, -shift, canvas_width, canvas_height),
                    None,
                ),
                Action::ShiftDown => (
                    self.spec_translated(0, shift, canvas_width, canvas_height),
                    None,
                ),
                Action::ShiftLeft => (
                    self.spec_translated(-shift, 0, canvas_width, canvas_height),
                    None,
                ),
                Action::ShiftRight => (
                    self.spec_translated(shift, 0, canvas_width, canvas_height),
                    None,
                ),
                Action::ResetTransform => (
                    AppView { viewport: self.viewport.spec_reset(), dirty: true, ..self },
                    None,
                ),
                Action::ZoomIn => (
                    AppView {
                        viewport: Viewport {
                            zoom_level: (self.viewport.zoom_level + 1) as i32,
                            ..self.viewport
                        },
                        dirty: true,
                        ..self
                    },
                    None,
                ),
                Action::ZoomOut => (
                    AppView {
                        viewport: Viewport {
                            zoom_level: (self.viewport.zoom_level - 1) as i32,
                            ..self.viewport
                        },
                        dirty: true,
                        ..self
                    },
                    None,
                ),
                Action::ToggleFullscreen => (self, Some(BackendRequest::ToggleFullscreen)),
                Action::Quit => (AppView { running: false, ..self }, None),
            },
        }
    }

    /// The state after a pan, with the dirty flag set.
    pub open spec fn spec_translated(self, dx: int, dy: int, canvas_width: u32, canvas_height: u32) -> AppView {
        AppView {
            viewport: self.viewport.spec_translate(dx, dy, canvas_width, canvas_height),
            dirty: true,
            ..self
        }
    }

    /// Executes a viewer command against the canvas size of the moment.
    /// Pans and shifts move the image under the clamp; reset and the zooms
    /// change the transform; all of them mark the view dirty. Quit stops
    /// the session, and a fullscreen toggle is handed back for the backend
    /// to perform.
    pub fn do_command(&mut self, command: &Command, canvas_width: u32, canvas_height: u32) -> (r:
        Option<BackendRequest>)
        requires
            old(self).wf(),
            canvas_width <= i32::MAX as u32,
            canvas_height <= i32::MAX as u32,
            i32::MIN < old(self).viewport.zoom_level < i32::MAX,
        ensures
            final(self).wf(),
            (*final(self), r) == old(self).spec_do_command(*command, canvas_width, canvas_height),
    {
        match command {
            Command::Translate(xrel, yrel) => {
                self.viewport.translate(*xrel, *yrel, canvas_width, canvas_height);
                self.dirty = true;
                None
            },
            Command::Wrap(action) => {
                let shift = self.config.shift_amount as i32;
                match action {
                    Action::ShiftUp => {
                        self.viewport.translate(0, -shift, canvas_width, canvas_height);
                        self.dirty = true;
                        None
                    },
                    Action::ShiftDown => {
                        self.viewport.translate(0, shift, canvas_width, canvas_height);
                        self.dirty = true;
                        None
                    },
                    Action::ShiftLeft => {
                        self.viewport.translate(-shift, 0, canvas_width, canvas_height);
                        self.dirty = true;
                        None
                    },
                    Action::ShiftRight => {
                        self.viewport.translate(shift, 0, canvas_width, canvas_height);
                        self.dirty = true;
                        None
                    },
                    Action::ResetTransform => {
                        self.viewport.reset();
                        self.dirty = true;
                        None
                    },
                    Action::ZoomIn => {
                        self.viewport.zoom_in();
                        self.dirty = true;
                        None
                    },
                    Action::ZoomOut => {
                        self.viewport.zoom_out();
                        self.dirty = true;
                        None
                    },
                    Action::ToggleFullscreen => Some(BackendRequest::ToggleFullscreen),
                    Action::Quit => {
                        self.running = false;
                        None
                    },
                }
            },
        }
    }

    /// The state and side-effect request an event leads to: a resolved
    /// command is executed; otherwise a quit signal stops the session, an
    /// expose signal marks the view dirty, and anything else is ignored.
    pub open spec fn spec_handle_event(self, event: Event, canvas_width: u32, canvas_height: u32) -> (
        AppView,
        Option<BackendRequest>,
    ) {
        match spec_resolve(event, self.config.binds@) {
            Some(command) => self.spec_do_command(command, canvas_width, canvas_height),
            None => match event {
                Event::Quit => (AppView { running: false, ..self }, None),
                Event::WindowExposed => (AppView { dirty: true, ..self }, None),
                _ => (self, None),
            },
        }
    }

    /// Handles an input event against the canvas size of the moment.
    ///
    /// If a key which is bound to an action is pressed, that action is
    /// executed. If a quit event occurs, the running flag is cleared.
    /// This function may set the dirty bit.
    pub fn handle_event(&mut self, event: &Event, canvas_width: u32, canvas_height: u32) -> (r:
        Option<BackendRequest>)
        requires
            old(self).wf(),
            canvas_width <= i32::MAX as u32,
            canvas_height <= i32::MAX as u32,
            i32::MIN < old(self).viewport.zoom_level < i32::MAX,
        ensures
            final(self).wf(),
            (*final(self), r) == old(self).spec_handle_event(*event, canvas_width, canvas_height),
    {
        match Command::try_from_event_using_keymap(event, &self.config.binds) {
            Some(command) => self.do_command(&command, canvas_width, canvas_height),
            None => {
                match event {
                    Event::Quit => {
                        self.running = false;
                    },
                    Event::WindowExposed => {
                        self.dirty = true;
                    },
                    _ => {},
                }
                None
            },
        }
    }

    /// The state after a present: the same view with the dirty flag
    /// cleared.
    pub open spec fn spec_present_state(self) -> AppView {
        AppView { dirty: false, ..self }
    }

    /// Computes the frame to draw, but only if the dirty flag is set; this
    /// is what keeps the view from redrawing on every poll. The dirty flag
    /// is cleared either way, so a second call without an intervening
    /// event yields nothing.
    pub fn present(&mut self, canvas_width: u32, canvas_height: u32) -> (frame: Option<Frame>)
        requires
            old(self).wf(),
            canvas_width <= i32::MAX as u32,
            canvas_height <= i32::MAX as u32,
        ensures
            final(self).wf(),
            *final(self) == old(self).spec_present_state(),
            match frame {
                Some(f) => old(self).dirty && f.clear_color == old(self).config.grid.color_light
                    && f.cell_color == old(self).config.grid.color_dark && f.cells@
                    == spec_background_cells(
                    canvas_width as int,
                    canvas_height as int,
                    old(self).config.grid.size as int,
                ) && f.image_dest == old(self).viewport.spec_transformed_rect(
                    canvas_width,
                    canvas_height,
                ),
                None => !old(self).dirty,
            },
    {
        if self.dirty {
            let cells = background_rects(canvas_width, canvas_height, self.config.grid.size);
            let image_dest = self.viewport.transformed_rect(canvas_width, canvas_height);
            self.dirty = false;
            Some(
                Frame {
                    clear_color: self.config.grid.color_light,
                    cell_color: self.config.grid.color_dark,
                    cells,
                    image_dest,
                },
            )
        } else {
            None
        }
    }
}

/// Law: redraws are gated on the dirty flag. After a present the flag is
/// clear, so presenting twice in succession without any intervening event
/// emits a frame at most on the first call.
pub proof fn lemma_dirty_gating(view: AppView)
    ensures
        !view.spec_present_state().dirty,
        view.spec_present_state().spec_present_state() == view.spec_present_state(),
{
}

} // verus!
