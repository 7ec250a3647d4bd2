//! What the panels have in common: their colours, icons and place in the window.
use vstd::prelude::*;

verus! {

/// A colour of the theme.
#[derive(Clone, Copy, Debug, PartialEq, Eq, Structural)]
pub enum ThemeColor {
    Text,
    TextMuted,
    TextDisabled,
    ElementSelected,
    Transparent,
    Blue,
    Green,
    Yellow,
    Magenta,
    Cyan,
    Red,
    BrightGreen,
    BrightMagenta,
}

/// A side of the window at which panels dock.
#[derive(Clone, Copy, Debug, PartialEq, Eq, Structural)]
pub enum DockPosition {
    Left,
    Bottom,
    Right,
}

/// An icon.
#[derive(Clone, Copy, Debug, PartialEq, Eq, Structural)]
pub enum Icon {
    Chat,
    DatabaseZap,
}

/// The side at which a panel docks.
pub fn position() -> (r: DockPosition)
    ensures
        r == DockPosition::Right,
{
    DockPosition::Right
}

/// Whether a panel may dock at a side: at the left and the right.
pub fn position_is_valid(position: DockPosition) -> (r: bool)
    ensures
        r == (position == DockPosition::Left || position == DockPosition::Right),
{
    match position {
        DockPosition::Left => true,
        DockPosition::Right => true,
        DockPosition::Bottom => false,
    }
}

} // verus!
