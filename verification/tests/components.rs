use oxker_tui::constants::max_line_width;
use oxker_tui::panels::{DebugPanel, MAX_DEBUG_EVENTS};
use oxker_tui::terminal::TerminalStateGuard;

#[test]
fn test_terminal_guard_creation() {
    // The test constructor skips the terminal operations.
    let _guard = TerminalStateGuard::new_for_test();
}

#[test]
fn test_max_line_width() {
    assert_eq!(max_line_width("hello"), 5);
    assert_eq!(max_line_width("hello\nworld!"), 6);
    assert_eq!(max_line_width(""), 1);
    assert_eq!(max_line_width("\n\n"), 0);
}

#[test]
fn test_event_history_limit() {
    let mut panel = DebugPanel::new();

    for i in 0..(MAX_DEBUG_EVENTS + 100) {
        panel.add_event(
            "TestEvent".to_string(),
            format!("Event {i}"),
            Some(i as u64 % 100),
        );
    }

    assert_eq!(panel.event_history().len(), MAX_DEBUG_EVENTS);

    let last_event = panel.event_history().back().unwrap();
    assert!(last_event
        .details
        .contains(&(MAX_DEBUG_EVENTS + 99).to_string()));
}

#[test]
fn error_test_placeholder() {}

#[test]
fn headers_test_placeholder() {}

#[test]
fn info_test_placeholder() {}

#[test]
fn logs_test_placeholder() {}
