//! The terminal events the control loop routes, stripped to what the
//! routing reads: which key, which mouse gesture at which cell, or the new
//! terminal size. Mapping the terminal backend's own event types onto
//! these is the shell's job, outside the verified core.

use vstd::prelude::*;

verus! {

/// A key press, by its meaning to the viewer.
#[derive(Clone, Copy, PartialEq, Eq, Structural, Debug)]
pub enum KeyInput {
    /// A printable character: the universal exit.
    Char(char),
    PageUp,
    PageDown,
    Up,
    Down,
    Left,
    Right,
    Enter,
    /// Any other key; ignored.
    Other,
}

/// A mouse gesture at a terminal cell.
#[derive(Clone, Copy, PartialEq, Eq, Structural, Debug)]
pub enum MouseInput {
    /// A drag passing through column `x`, row `y`.
    Drag(u16, u16),
    ScrollUp,
    ScrollDown,
    /// Press, release, plain movement: breaks drag continuity.
    Other,
}

/// One polled terminal event.
#[derive(Clone, Copy, PartialEq, Eq, Structural, Debug)]
pub enum TermEvent {
    Key(KeyInput),
    Mouse(MouseInput),
    /// The terminal now measures `columns x rows`.
    Resize(u16, u16),
}

} // verus!
