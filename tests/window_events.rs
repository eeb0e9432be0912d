use skillpad::window_event::{react_to_window_event, WindowEventKind, WindowReaction};

#[test]
fn theme_change_clears_background() {
    assert_eq!(
        react_to_window_event(WindowEventKind::ThemeChanged),
        WindowReaction::ClearBackground
    );
}

#[test]
fn other_events_leave_background() {
    for k in [
        WindowEventKind::Resized,
        WindowEventKind::Moved,
        WindowEventKind::CloseRequested,
        WindowEventKind::Destroyed,
        WindowEventKind::Focused,
        WindowEventKind::ScaleFactorChanged,
        WindowEventKind::DragDrop,
        WindowEventKind::Other,
    ] {
        assert_eq!(react_to_window_event(k), WindowReaction::Ignore);
    }
}
