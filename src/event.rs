use vstd::prelude::*;

verus! {

/// One of the three pointer buttons.
#[derive(Clone, Copy, Debug, PartialEq, Eq, Structural)]
pub enum MouseButton {
    Left,
    Right,
    Middle,
}

/// The vertical part of a scroll, in units of `1 / UNIT` of a line or of a
/// pixel, as the platform delivered it. The two are summed as they come, with
/// no conversion between lines and pixels.
#[derive(Clone, Copy, Debug, PartialEq, Eq, Structural)]
pub enum ScrollDelta {
    Lines(i64),
    Pixels(i64),
}

/// The scalar amount of a scroll, whichever way it was delivered.
pub open spec fn scroll_amount(d: ScrollDelta) -> i64 {
    match d {
        ScrollDelta::Lines(y) => y,
        ScrollDelta::Pixels(y) => y,
    }
}

impl ScrollDelta {
    /// The scalar amount of the scroll.
    pub fn amount(self) -> (r: i64)
        ensures
            r == scroll_amount(self),
    {
        match self {
            ScrollDelta::Lines(y) => y,
            ScrollDelta::Pixels(y) => y,
        }
    }
}

/// A raw platform event, reduced to plain values. Key codes are virtual key
/// codes; cursor positions are in pixels.
#[derive(Clone, Copy, Debug, PartialEq, Eq, Structural)]
pub enum InputEvent {
    Key { code: u32, pressed: bool },
    Button { button: MouseButton, pressed: bool },
    Scroll { delta: ScrollDelta },
    CursorMoved { x: i32, y: i32 },
    Resized { width: u32, height: u32 },
    CloseRequested,
    LoopDestroyed,
    Ignored,
}

/// What the caller must do after an event has been absorbed.
#[derive(Clone, Copy, Debug, PartialEq, Eq, Structural)]
pub enum Action {
    /// Nothing beyond carrying on.
    Continue,
    /// Resize the rendering viewport to the given size, then carry on.
    SetViewport { width: u32, height: u32 },
    /// Stop the loop at once: no further frame is built.
    Stop,
}

} // verus!
