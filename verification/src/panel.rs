//! What the panels have in common: the side of the window that a panel is
//! docked to, how far its content is scrolled, and the colours of a label.

use vstd::prelude::*;

verus! {

/// The side of the window that a panel is docked to.
#[derive(Debug, Clone, Copy, PartialEq, Eq, Structural, Hash)]
pub enum PanelSide {
    Left,
    Right,
    Bottom,
}

impl Default for PanelSide {
    /// A panel is docked to the right unless it is told otherwise.
    fn default() -> (side: Self)
        ensures
            side == PanelSide::Right,
    {
        PanelSide::Right
    }
}

/// How far the content of a scrolling element is scrolled, in whole pixels.
#[derive(Debug, Clone, Copy, PartialEq, Eq, Structural, Hash)]
pub struct ScrollState {
    pub x: i32,
    pub y: i32,
}

impl Default for ScrollState {
    /// Content starts unscrolled.
    fn default() -> (scroll_state: Self)
        ensures
            scroll_state == (ScrollState { x: 0, y: 0 }),
    {
        ScrollState { x: 0, y: 0 }
    }
}

/// The colour of a label that reports how a quantity stands.
#[derive(Debug, Clone, Copy, PartialEq, Eq, Structural, Hash)]
pub enum LabelColor {
    Positive,
    Warning,
    Negative,
}

} // verus!
