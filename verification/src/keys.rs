//! Input as the library sees it: the key and whether Control was held, mouse events, and
//! screen rectangles for hit testing.
use vstd::prelude::*;

verus! {

/// A pressed key.
#[derive(Clone, Copy, PartialEq, Eq, Structural)]
pub enum KeyCode {
    Tab,
    BackTab,
    Up,
    Down,
    Left,
    Right,
    PageUp,
    PageDown,
    Home,
    End,
    Enter,
    Esc,
    Backspace,
    Delete,
    /// Function key F1..F12.
    F(u8),
    Char(char),
    Other,
}

/// The modifier keys the handlers look at.
#[derive(Clone, Copy, PartialEq, Eq, Structural)]
pub struct KeyModifiers {
    pub control: bool,
}

/// What the mouse did.
#[derive(Clone, Copy, PartialEq, Eq, Structural)]
pub enum MouseKind {
    ScrollUp,
    ScrollDown,
    /// The left button went down.
    LeftDown,
    /// The right button went down.
    RightDown,
    /// The middle button went down.
    MiddleDown,
    Other,
}

/// A rectangle of screen cells.
#[derive(Clone, Copy, PartialEq, Eq, Structural)]
pub struct Rect {
    pub x: u16,
    pub y: u16,
    pub width: u16,
    pub height: u16,
}

/// The cell (col, row) lies in the rectangle.
pub open spec fn rect_contains(r: Rect, col: int, row: int) -> bool {
    r.x <= col < r.x + r.width && r.y <= row < r.y + r.height
}

/// Whether the pointer at (col, row) is over the rectangle.
pub fn pointer_in(r: Rect, col: u16, row: u16) -> (b: bool)
    ensures
        b == rect_contains(r, col as int, row as int),
{
    col >= r.x && (col - r.x) < r.width && row >= r.y && (row - r.y) < r.height
}

} // verus!
