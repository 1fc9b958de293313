//! Input events and what they ask of the viewer.

use vstd::prelude::*;

verus! {

/// A key as the viewer tells keys apart.
#[derive(Clone, Copy, Debug, PartialEq, Eq, Structural)]
pub enum Key {
    Escape,
    W,
    S,
    A,
    D,
    I,
    O,
    Equals,
    Minus,
    P,
    Other,
}

/// One event taken from the window's queue.
#[derive(Clone, Copy, Debug, PartialEq, Eq, Structural)]
pub enum InputEvent {
    /// The window was asked to close.
    Quit,
    /// A key went down.
    KeyDown(Key),
    /// Anything else.
    Other,
}

/// What an event asks for.
#[derive(Clone, Copy, Debug, PartialEq, Eq, Structural)]
pub enum Command {
    /// Leave the frame loop.
    Terminate,
    /// Move the center by `dx` and `dy` pan steps; one step is
    /// `PAN_STEP_PERCENT` hundredths of the current zoom factor.
    Pan { dx: i8, dy: i8 },
    /// Multiply the zoom factor by `percent` hundredths.
    Zoom { percent: u32 },
    /// Move the iteration cap by `delta`.
    AdjustCap { delta: i32 },
    /// Write the current image out.
    SaveImage,
    /// Nothing.
    Ignore,
}

/// Length of one pan step, in hundredths of the zoom factor.
pub const PAN_STEP_PERCENT: u32 = 5;

/// Factor of one zoom-in step, in hundredths.
pub const ZOOM_IN_PERCENT: u32 = 80;

/// Factor of one zoom-out step, in hundredths.
pub const ZOOM_OUT_PERCENT: u32 = 120;

impl Command {
    /// True for the commands that change the viewport, so that the frame
    /// has to be drawn again.
    pub open spec fn changes_view(self) -> bool {
        self is Pan || self is Zoom || self is AdjustCap
    }

    /// True for the commands that the frame loop hands on to its caller:
    /// those on the center and the zoom factor, and the request to save.
    pub open spec fn is_forwarded(self) -> bool {
        self is Pan || self is Zoom || self is SaveImage
    }
}

/// The key bindings, as a function.
pub open spec fn command_of(event: InputEvent) -> Command {
    match event {
        InputEvent::Quit => Command::Terminate,
        InputEvent::KeyDown(Key::Escape) => Command::Terminate,
        InputEvent::KeyDown(Key::W) => Command::Pan { dx: 0, dy: 1 },
        InputEvent::KeyDown(Key::S) => Command::Pan { dx: 0, dy: (-1) as i8 },
        InputEvent::KeyDown(Key::A) => Command::Pan { dx: 1, dy: 0 },
        InputEvent::KeyDown(Key::D) => Command::Pan { dx: (-1) as i8, dy: 0 },
        InputEvent::KeyDown(Key::I) => Command::Zoom { percent: 80 },
        InputEvent::KeyDown(Key::O) => Command::Zoom { percent: 120 },
        InputEvent::KeyDown(Key::Equals) => Command::AdjustCap { delta: 1 },
        InputEvent::KeyDown(Key::Minus) => Command::AdjustCap { delta: (-1) as i32 },
        InputEvent::KeyDown(Key::P) => Command::SaveImage,
        InputEvent::KeyDown(Key::Other) => Command::Ignore,
        InputEvent::Other => Command::Ignore,
    }
}

/// Looks an event up in the key bindings.
pub fn command_for(event: InputEvent) -> (out: Command)
    ensures
        out == command_of(event),
{
    match event {
        InputEvent::Quit => Command::Terminate,
        InputEvent::Other => Command::Ignore,
        InputEvent::KeyDown(key) => match key {
            Key::Escape => Command::Terminate,
            Key::W => Command::Pan { dx: 0, dy: 1 },
            Key::S => Command::Pan { dx: 0, dy: -1 },
            Key::A => Command::Pan { dx: 1, dy: 0 },
            Key::D => Command::Pan { dx: -1, dy: 0 },
            Key::I => Command::Zoom { percent: ZOOM_IN_PERCENT },
            Key::O => Command::Zoom { percent: ZOOM_OUT_PERCENT },
            Key::Equals => Command::AdjustCap { delta: 1 },
            Key::Minus => Command::AdjustCap { delta: -1 },
            Key::P => Command::SaveImage,
            Key::Other => Command::Ignore,
        },
    }
}

} // verus!
