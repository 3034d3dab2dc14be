use vstd::prelude::*;

use crate::board::{frame_ops, Board};
use crate::color::{background_color, opaque, Color};
use crate::pixel::{DrawOp, Pixel};

verus! {

/// What a held button does: paint with the foreground color, or erase by
/// painting with the background color.
#[derive(Clone, Copy, Debug, PartialEq, Eq, Structural)]
pub enum Mode {
    Draw,
    Erase,
}

/// The mouse buttons the canvas tells apart.
#[derive(Clone, Copy, Debug, PartialEq, Eq, Structural)]
pub enum MouseButton {
    Left,
    Right,
    Other,
}

#[derive(Clone, Copy, Debug, PartialEq, Eq, Structural)]
pub enum ButtonState {
    Press,
    Release,
}

/// One event delivered by the windowing toolkit, in arrival order.
#[derive(Clone, Copy, Debug, PartialEq, Eq, Structural)]
pub enum Event {
    /// The pointer moved to (x, y).
    MouseCursor { x: i64, y: i64 },
    /// A mouse button went down or up.
    Button { button: MouseButton, state: ButtonState },
    /// A frame is due.
    Render,
    /// Anything else; it changes nothing.
    Other,
}

/// The last position the pointer was seen at.
#[derive(Clone, Copy, Debug, PartialEq, Eq, Structural)]
pub struct MouseLocation {
    pub x: i64,
    pub y: i64,
}

/// The foreground color squares are painted with: black.
pub open spec fn paint_color() -> Color {
    opaque(0, 0, 0)
}

/// The color a new square gets in the given mode.
pub open spec fn mode_color(mode: Mode) -> Color {
    match mode {
        Mode::Draw => paint_color(),
        Mode::Erase => background_color(),
    }
}

impl Mode {
    /// The color a new square gets in this mode.
    pub fn color(&self) -> (c: Color)
        ensures
            c == mode_color(*self),
    {
        match self {
            Mode::Draw => Color::rgb(0, 0, 0),
            Mode::Erase => Color::rgb(255, 255, 255),
        }
    }
}

/// The whole state of the program as the contracts see it.
pub struct AppView {
    pub pixels: Seq<Pixel>,
    pub x: i64,
    pub y: i64,
    pub down: bool,
    pub mode: Mode,
}

/// The state after one event.
pub open spec fn step(s: AppView, e: Event) -> AppView {
    match e {
        Event::MouseCursor { x, y } => AppView { x, y, ..s },
        Event::Button { button: MouseButton::Left, state: ButtonState::Press } => AppView {
            down: true,
            mode: Mode::Draw,
            ..s
        },
        Event::Button { button: MouseButton::Right, state: ButtonState::Press } => AppView {
            down: true,
            mode: Mode::Erase,
            ..s
        },
        Event::Button { button: MouseButton::Other, .. } => s,
        Event::Button { state: ButtonState::Release, .. } => AppView { down: false, ..s },
        Event::Render => if s.down {
            AppView { pixels: s.pixels.push(Pixel { color: mode_color(s.mode), x: s.x, y: s.y }), ..s }
        } else {
            s
        },
        Event::Other => s,
    }
}

/// The state after the events, taken first to last.
pub open spec fn run(s: AppView, events: Seq<Event>) -> AppView
    decreases events.len(),
{
    if events.len() == 0 {
        s
    } else {
        run(step(s, events[0]), events.drop_first())
    }
}

/// The canvas together with the input state that decides what gets painted.
pub struct App {
    pub board: Board,
    pub mouse_location: MouseLocation,
    pub mouse_down: bool,
    pub mode: Mode,
}

impl View for App {
    type V = AppView;

    open spec fn view(&self) -> AppView {
        AppView {
            pixels: self.board@,
            x: self.mouse_location.x,
            y: self.mouse_location.y,
            down: self.mouse_down,
            mode: self.mode,
        }
    }
}

impl App {
    /// The state before any event: pointer at (0, 0), no button held, drawing mode.
    pub fn new(board: Board) -> (app: App)
        ensures
            app@ == (AppView { pixels: board@, x: 0, y: 0, down: false, mode: Mode::Draw }),
    {
        App { board, mouse_location: MouseLocation { x: 0, y: 0 }, mouse_down: false, mode: Mode::Draw }
    }

    /// Applies one event. A frame event first adds a square at the pointer if a
    /// button is held, then returns the instructions that draw the canvas;
    /// every other event returns nothing.
    pub fn handle_event(&mut self, event: Event) -> (frame: Option<Vec<DrawOp>>)
        ensures
            final(self)@ == step(old(self)@, event),
            frame is Some <==> event is Render,
            frame matches Some(ops) ==> ops@ == frame_ops(final(self)@.pixels),
    {
        match event {
            Event::MouseCursor { x, y } => {
                self.mouse_location = MouseLocation { x, y };
                None
            },
            Event::Button { button, state } => {
                match button {
                    MouseButton::Left => {
                        match state {
                            ButtonState::Press => {
                                self.mode = Mode::Draw;
                                self.mouse_down = true;
                            },
                            ButtonState::Release => {
                                self.mouse_down = false;
                            },
                        }
                    },
                    MouseButton::Right => {
                        match state {
                            ButtonState::Press => {
                                self.mode = Mode::Erase;
                                self.mouse_down = true;
                            },
                            ButtonState::Release => {
                                self.mouse_down = false;
                            },
                        }
                    },
                    MouseButton::Other => {},
                }
                None
            },
            Event::Render => {
                if self.mouse_down {
                    let color = self.mode.color();
                    self.board.append(Pixel::new(color, self.mouse_location.x, self.mouse_location.y));
                }
                Some(self.board.render())
            },
            Event::Other => None,
        }
    }
}

} // verus!
