use oxker_tui::debug::{DebugEvent, DebugTracker, EventCategory, EventFilters};
use oxker_tui::debug_panel::DebugPanel as FilterDebugPanel;
use oxker_tui::layout::{Constraint, Rect};
use oxker_tui::model::{Columns, ContainerPorts, Header, KeyBinding, KeyCode, SortedOrder};
use oxker_tui::panels::{
    DebugPanel, HeaderEvent, HeadersPanel, LogEvent, LogsContent, LogsPanel, PortsPanel, TimedEvent,
};

fn columns() -> Columns {
    Columns {
        name: (Header::Name, 10),
        state: (Header::State, 8),
        status: (Header::Status, 10),
        cpu: (Header::Cpu, 8),
        mem: (Header::Memory, 10, 10),
        id: (Header::Id, 8),
        image: (Header::Image, 12),
        net_rx: (Header::Rx, 10),
        net_tx: (Header::Tx, 10),
    }
}

#[test]
fn header_blocks_stop_at_the_first_that_does_not_fit() {
    let section = Rect { x: 4, y: 2, width: 30, height: 1 };
    let blocks = HeadersPanel::header_blocks(columns(), None, section, true);
    // name: 11 chars, state: 9, status: 11 -> 31 > 30.
    assert_eq!(blocks.len(), 2);
    assert_eq!(blocks[0].0, Header::Name);
    assert_eq!(blocks[0].1, "name       ");
    assert_eq!(blocks[0].2, Rect { x: 4, y: 2, width: 11, height: 1 });
    assert_eq!(blocks[1].2, Rect { x: 15, y: 2, width: 9, height: 1 });

    let wide = Rect { x: 0, y: 0, width: 500, height: 1 };
    let all = HeadersPanel::header_blocks(columns(), Some((Header::Cpu, SortedOrder::Desc)), wide, true);
    assert_eq!(all.len(), 9);
    assert_eq!(all[3].1, "cpu ▼    ");
    assert_eq!(all[4].1.chars().count(), 24);

    assert!(HeadersPanel::header_blocks(columns(), None, wide, false).is_empty());
}

#[test]
fn header_bar_parts() {
    assert_eq!(
        HeadersPanel::bar_constraints(true, 100, 16),
        vec![Constraint::Max(4), Constraint::Max(84), Constraint::Max(16)]
    );
    assert_eq!(
        HeadersPanel::bar_constraints(true, 10, 16),
        vec![Constraint::Max(4), Constraint::Max(1), Constraint::Max(16)]
    );
    assert_eq!(HeadersPanel::bar_constraints(false, 10, 16), vec![Constraint::Percentage(100)]);
}

#[test]
fn help_hint_uses_the_binding() {
    let default = KeyBinding { primary: KeyCode::Char('h'), secondary: None };
    assert_eq!(HeadersPanel::gen_help_text(default, default, false), "( h ) show help ");
    assert_eq!(HeadersPanel::gen_help_text(default, default, true), "( h ) exit help ");
    let custom = KeyBinding { primary: KeyCode::Char('?'), secondary: Some(KeyCode::F(1)) };
    let text = HeadersPanel::gen_help_text(custom, default, false);
    assert!(text.starts_with(" ( ? | "));
    assert!(text.ends_with(" ) show help "));
}

#[test]
fn ports_panel_lines() {
    let ports = vec![
        ContainerPorts { ip: Some("127.0.0.1".to_string()), private: 80, public: Some(8080) },
        ContainerPorts { ip: None, private: 22, public: None },
    ];
    let lines = PortsPanel::port_lines(&ports, 9);
    assert_eq!(lines.len(), 3);
    assert_eq!(lines[0], "       ip   private   public");
    assert_eq!(lines[1], "127.0.0.1        80     8080");
    assert_eq!(lines[2], "                 22         ");
}

#[test]
fn logs_panel_content() {
    match LogsPanel::content(true, true, 5, 0, "x", 10) {
        LogsContent::Message(m) => assert_eq!(m, "parsing logs x"),
        other => panic!("unexpected {other:?}"),
    }
    match LogsPanel::content(false, true, 5, 0, "x", 10) {
        LogsContent::Message(m) => assert_eq!(m, "loading logs x"),
        other => panic!("unexpected {other:?}"),
    }
    match LogsPanel::content(false, false, 0, 0, "x", 10) {
        LogsContent::Message(m) => assert_eq!(m, "no logs found"),
        other => panic!("unexpected {other:?}"),
    }
    match LogsPanel::content(false, false, 5, 2, "x", 14) {
        LogsContent::Lines { selected, padding } => {
            assert_eq!(selected, Some(2));
            assert_eq!(padding, 2);
        }
        other => panic!("unexpected {other:?}"),
    }
    match LogsPanel::content(false, false, 5, 9, "x", 3) {
        LogsContent::Lines { selected, padding } => {
            assert_eq!(selected, None);
            assert_eq!(padding, 0);
        }
        other => panic!("unexpected {other:?}"),
    }
}

fn event(at: u64, details: &str) -> DebugEvent {
    DebugEvent::new_at(
        at,
        EventCategory::Logs,
        "ui".to_string(),
        "add".to_string(),
        details.to_string(),
    )
}

#[test]
fn debug_event_list_is_newest_first() {
    let events = vec![event(1_000, "first"), event(2_000, "second"), event(63_004, "third")];
    let mut panel = FilterDebugPanel::new();
    let lines = panel.event_lines(&events, 2, 1_000);
    assert_eq!(lines.len(), 2);
    assert_eq!(lines[0], "01:02.004 LOGS     ui           add        third");
    assert!(lines[1].ends_with("second"));
    panel.handle_scroll_down(3);
    panel.handle_scroll_down(3);
    let rest = panel.event_lines(&events, 5, 1_000);
    assert_eq!(rest.len(), 1);
    assert!(rest[0].ends_with("first"));
    panel.handle_scroll_down(3);
    assert_eq!(panel.scroll_position(), 2);
}

#[test]
fn debug_header_and_filters() {
    let (state, count) = FilterDebugPanel::header_parts(true, 12);
    assert_eq!(state, " ⏸ PAUSED ");
    assert_eq!(count, " Events: 12 ");
    let (state, _) = FilterDebugPanel::header_parts(false, 0);
    assert_eq!(state, " ▶ RECORDING ");

    let mut panel = FilterDebugPanel::new();
    let mut filters = EventFilters::new();
    let entries = panel.filter_entries(&filters);
    assert_eq!(entries.len(), 8);
    assert_eq!(entries[0].0, "☑ RENDER ");
    assert!(entries[0].2);
    assert!(entries[3].3);
    assert!(!entries[7].3);
    assert_eq!(entries[6].0, "☐ SYSTEM ");

    panel.handle_filter_prev();
    assert_eq!(panel.selected_filter(), 7);
    panel.toggle_selected_filter(&mut filters);
    assert!(!filters.is_enabled(EventCategory::Error));
    panel.handle_filter_next();
    assert_eq!(panel.selected_filter(), 0);
}

#[test]
fn debug_tracker_filters_and_pauses() {
    let mut tracker = DebugTracker::new_at(0);
    tracker.log_event(event(10, "Kept line"));
    let mut system = event(20, "hidden");
    system.category = EventCategory::System;
    tracker.log_event(system);
    assert_eq!(tracker.get_filtered_events().len(), 1);
    tracker.toggle_pause();
    assert!(tracker.is_paused());
    tracker.log_event(event(30, "dropped"));
    tracker.toggle_pause();
    assert_eq!(tracker.get_filtered_events().len(), 1);
    let mut filters = EventFilters::new();
    filters.text_filter = "KEPT".to_string();
    tracker.set_filters(filters);
    assert_eq!(tracker.get_filtered_events().len(), 1);
    let mut nothing = EventFilters::new();
    nothing.text_filter = "absent".to_string();
    tracker.set_filters(nothing);
    assert!(tracker.get_filtered_events().is_empty());
    tracker.clear();
    tracker.set_filters(EventFilters::new());
    assert!(tracker.get_filtered_events().is_empty());
}

#[test]
fn help_sections_texts() {
    let name = oxker_tui::panels::HelpPanel::generate_name_section("ab\r\ncd\n\nef\n");
    let texts: Vec<Vec<(String, bool)>> = name
        .iter()
        .map(|l| l.iter().map(|s| (s.text.clone(), s.highlight)).collect())
        .collect();
    assert_eq!(texts.len(), 5);
    assert!(texts[0].is_empty());
    assert_eq!(texts[1], vec![("ab".to_string(), true)]);
    assert_eq!(texts[3], vec![("".to_string(), true)]);
    assert_eq!(texts[4], vec![("ef".to_string(), true)]);

    let art = oxker_tui::panels::HelpPanel::generate_name_section(oxker_tui::constants::NAME_TEXT);
    assert_eq!(art.len(), 10);

    let desc = oxker_tui::panels::HelpPanel::generate_description_section("a tui");
    assert_eq!(desc.len(), 2);
    assert_eq!(desc[1][0].text, "a tui");
    let info = oxker_tui::panels::HelpPanel::generate_info_section("https://example.org");
    assert_eq!(info.len(), 3);
    assert!(info[2][0].highlight);
    assert!(oxker_tui::panels::HelpPanel::generate_timezone_section(false, None).is_empty());
    let tz = oxker_tui::panels::HelpPanel::generate_timezone_section(true, None);
    assert_eq!(tz.len(), 3);
    assert_eq!(tz[1][1].text, "Etc/UTC");
    let keys = oxker_tui::panels::HelpPanel::generate_keymap_section();
    assert_eq!(keys.len(), 17);
    assert_eq!(keys[0][1].text, " ( tab ) ");
    let widest = oxker_tui::panels::HelpPanel::widest(&keys).unwrap();
    assert!(widest > 60);
}

#[test]
fn debug_file_line_layout() {
    let line = oxker_tui::debug::debug_file_line(123_456_789, EventCategory::Logs, "ui", "add", "hi");
    assert_eq!(line, "[023456.789] LOGS     | ui           | add        | hi\n");
}

#[test]
fn panels_send_nothing_to_the_core() {
    let mut logs = LogsPanel::new();
    assert!(logs.handle_event(&LogEvent::PageDown).is_none());
    let mut headers = HeadersPanel::new();
    assert!(headers.handle_event(&HeaderEvent::SortBy(Header::Cpu)).is_none());
    let mut debug = DebugPanel::new();
    let event = TimedEvent {
        timestamp: None,
        event_type: "Refresh".to_string(),
        details: "list".to_string(),
        latency_ms: Some(3),
    };
    assert!(debug.handle_event(&event).is_none());
    assert_eq!(debug.event_history().len(), 1);
    assert_eq!(debug.event_history()[0].details, "list");
    assert!(oxker_tui::terminal::TerminalStateGuard::default().restores_on_drop());
}
