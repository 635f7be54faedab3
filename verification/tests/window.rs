use tray_shell::{on_window_event, HostOp, WindowEvent};

#[test]
fn close_request_hides_then_prevents_close() {
    assert_eq!(
        on_window_event(&WindowEvent::CloseRequested),
        vec![HostOp::HideWindow, HostOp::PreventClose]
    );
}

#[test]
fn close_request_never_asks_for_show_or_exit() {
    let ops = on_window_event(&WindowEvent::CloseRequested);
    assert_eq!(ops.iter().filter(|op| **op == HostOp::HideWindow).count(), 1);
    assert_eq!(ops.iter().filter(|op| **op == HostOp::PreventClose).count(), 1);
    assert!(!ops.contains(&HostOp::ShowWindow));
    assert!(!ops.iter().any(|op| matches!(op, HostOp::Exit(_))));
}

#[test]
fn other_window_events_ask_for_nothing() {
    for event in [
        WindowEvent::Resized,
        WindowEvent::Moved,
        WindowEvent::Destroyed,
        WindowEvent::Focused,
        WindowEvent::ScaleFactorChanged,
        WindowEvent::FileDrop,
        WindowEvent::ThemeChanged,
        WindowEvent::Other,
    ] {
        assert_eq!(on_window_event(&event), vec![]);
    }
}
