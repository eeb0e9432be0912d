//! The shell's answer to window events.
use vstd::prelude::*;

verus! {

/// The kind of an event that the windowing system delivers for a window.
#[derive(Clone, Copy, Debug, PartialEq, Eq, Structural)]
pub enum WindowEventKind {
    Resized,
    Moved,
    CloseRequested,
    Destroyed,
    Focused,
    ScaleFactorChanged,
    DragDrop,
    ThemeChanged,
    Other,
}

/// What the shell does to a window in answer to an event.
#[derive(Clone, Copy, Debug, PartialEq, Eq, Structural)]
pub enum WindowReaction {
    /// Leave the window as it is.
    Ignore,
    /// Drop the window's explicit background colour so that the theme's applies.
    ClearBackground,
}

/// A theme change clears the background override; every other event is ignored.
pub open spec fn window_reaction_spec(kind: WindowEventKind) -> WindowReaction {
    if kind == WindowEventKind::ThemeChanged {
        WindowReaction::ClearBackground
    } else {
        WindowReaction::Ignore
    }
}

/// The shell's answer to a window event of kind `kind`: only a theme change
/// clears the background override, anything else (a resize, a move) leaves it.
pub fn react_to_window_event(kind: WindowEventKind) -> (r: WindowReaction)
    ensures
        r == window_reaction_spec(kind),
        r == WindowReaction::ClearBackground <==> kind == WindowEventKind::ThemeChanged,
{
    match kind {
        WindowEventKind::ThemeChanged => WindowReaction::ClearBackground,
        _ => WindowReaction::Ignore,
    }
}

} // verus!
