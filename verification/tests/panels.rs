use oxker_tui::layout::{centered, cell, Constraint, Direction, InfoBox, Rect, SplitLayout};
use oxker_tui::model::{DockerCommand, FilterBy, Header, KeyBinding, KeyCode, SortedOrder, State};
use oxker_tui::panels::{
    split_title, ConfirmationModal, DebugPanel, DeleteConfirmPanel, ErrorPanel, FilterPanel,
    HeadersPanel, LogsPanel, PortsPanel, TimedEvent,
};

fn key(c: char) -> KeyBinding {
    KeyBinding {
        primary: KeyCode::Char(c),
        secondary: None,
    }
}

fn rect(x: u16, y: u16, width: u16, height: u16) -> Rect {
    Rect { x, y, width, height }
}

#[test]
fn test_calculate_size() {
    let (width, height) = ErrorPanel::calculate_size(
        "Unable to access docker daemon",
        true,
        key('c'),
        key('q'),
        "oxker",
        "0.1.0",
    );
    assert!(width > 0);
    assert!(height > 0);

    let (width2, height2) =
        ErrorPanel::calculate_size("Test error message", false, key('c'), key('q'), "oxker", "0.1.0");
    assert!(width2 > 0);
    assert!(height2 > 0);
}

#[test]
fn error_dialog_size_exact() {
    // "\nTest error message\n\n ( c ) clear error\n\n ( q ) quit oxker":
    // six lines, the widest of 18 chars.
    assert_eq!(
        ErrorPanel::calculate_size("Test error message", false, key('c'), key('q'), "oxker", "1"),
        (26, 9)
    );
    // "\nboom\n\n oxker::v1 closing in XX seconds": four lines.
    assert_eq!(
        ErrorPanel::calculate_size("boom", true, key('c'), key('q'), "oxker", "1"),
        (40, 7)
    );
}

#[test]
fn test_filter_by_selection() {
    for filter_type in &[FilterBy::Name, FilterBy::Image, FilterBy::Status, FilterBy::All] {
        let options = FilterPanel::filter_by_options(*filter_type);
        assert_eq!(options.len(), 4);
        let selected: Vec<&str> = options.iter().filter(|o| o.1).map(|o| o.0).collect();
        assert_eq!(selected.len(), 1);
    }
    let options = FilterPanel::filter_by_options(FilterBy::Image);
    assert_eq!(options[1], (" Image ", true));
    assert_eq!(FilterPanel::term_text(&None), "");
    assert_eq!(FilterPanel::term_text(&Some("abc".to_string())), "abc");
}

#[test]
fn test_toast_visibility() {
    let info_box = InfoBox::new().duration(1000);
    let start: u64 = 50_000;

    assert!(info_box.is_visible_at(start, start));
    assert!(!info_box.is_visible_at(start, start + 1100));
    assert!(info_box.is_visible_at(start, start + 999));
    assert!(info_box.is_visible_at(start + 10, start));
}

#[test]
fn test_toast_area_calculation() {
    let info_box = InfoBox::new();
    let parent = rect(0, 0, 80, 24);

    let area_short = info_box.area(parent, 10);
    assert_eq!(area_short.width, 30);
    assert_eq!(area_short.height, 3);
    assert_eq!(area_short.x, 48);
    assert_eq!(area_short.y, 20);

    let area_medium = info_box.area(parent, 25);
    assert_eq!(area_medium.width, 30);
    assert_eq!(area_medium.height, 3);
    assert_eq!(area_medium.x, 48);
    assert_eq!(area_medium.y, 20);

    let area_long = info_box.area(parent, 50);
    assert_eq!(area_long.width, 30);
    assert_eq!(area_long.height, 3);
    assert_eq!(area_long.x, 48);
    assert_eq!(area_long.y, 20);

    assert_eq!(area_short, area_medium);
    assert_eq!(area_medium, area_long);
}

#[test]
fn rect_is_clamped_at_the_edge() {
    assert_eq!(cell(10, 20), rect(10, 20, 1, 1));
    assert_eq!(cell(65535, 65535), rect(65535, 65535, 0, 0));
    assert_eq!(centered(rect(0, 0, 80, 24), 20, 4), rect(30, 10, 20, 4));
    assert_eq!(centered(rect(5, 5, 10, 10), 20, 4), rect(5, 8, 20, 4));
}

#[test]
fn split_layout_makes_one_part_per_constraint() {
    let layout = SplitLayout::new(Direction::Vertical)
        .constraints(vec![Constraint::Length(3), Constraint::Min(0)]);
    let parts = layout.split(rect(0, 0, 40, 10));
    assert_eq!(parts.len(), 2);
    assert_eq!(parts[0], rect(0, 0, 40, 3));
    assert_eq!(parts[1], rect(0, 3, 40, 7));
}

#[test]
fn confirmation_dialog_texts() {
    assert_eq!(ConfirmationModal::get_title(DockerCommand::Stop), " Confirm Stop ");
    assert_eq!(
        ConfirmationModal::question(DockerCommand::Delete, "web"),
        "Are you sure you want to delete container: web?"
    );
    assert_eq!(ConfirmationModal::calculate_size(DockerCommand::Delete, "web"), (60, 12));
    let long = "x".repeat(100);
    let (w, h) = ConfirmationModal::calculate_size(DockerCommand::Stop, &long);
    assert_eq!(h, 12);
    assert_eq!(w as usize, "Are you sure you want to stop container: ?".len() + 100 + 6);
}

#[test]
fn delete_dialog_texts() {
    assert_eq!(
        DeleteConfirmPanel::question("db"),
        "Are you sure you want to delete container: db"
    );
    assert_eq!(DeleteConfirmPanel::calculate_size("db"), (57, 8));
    assert_eq!(DeleteConfirmPanel::yes_text(key('y'), key('y')), "( y ) yes");
    assert_eq!(DeleteConfirmPanel::no_text(key('n'), key('n')), "( n ) no");
    let custom = DeleteConfirmPanel::yes_text(key('a'), key('y'));
    assert!(custom.contains('a'));
    assert!(custom.ends_with("yes"));
}

#[test]
fn ports_panel_rows() {
    assert_eq!(PortsPanel::ip_width(0), 2);
    assert_eq!(PortsPanel::ip_width(7), 7);
    assert_eq!(PortsPanel::ip_width(40), 16);
    assert_eq!(PortsPanel::empty_text(State::Paused), "no ports");
    assert_eq!(PortsPanel::empty_text(State::Dead), "");
    let row = PortsPanel::row("1.2.3.4", "80", "8080", 7);
    assert!(row.starts_with("1.2.3.4"));
    assert!(row.ends_with("8080"));
}

#[test]
fn logs_title_forms() {
    assert_eq!(LogsPanel::generate_title(0, 0, ""), " Logs 0/0 ");
    assert_eq!(
        LogsPanel::generate_title(10, 2, "Logs - web - nginx:latest"),
        " Logs 3/10 - web - nginx:latest "
    );
    assert_eq!(LogsPanel::generate_title(1, 0, "plain"), " Logs 1/1 - plain ");
    assert_eq!(
        split_title("Logs - a - b"),
        Some(("a".to_string(), "b".to_string()))
    );
    assert_eq!(split_title("no separators"), None);
}

#[test]
fn header_with_sort_mark() {
    let (text, width) =
        HeadersPanel::gen_header(Header::Name, Some((Header::Name, SortedOrder::Asc)), 8);
    assert_eq!(text, "name ▲   ");
    assert_eq!(width as usize, text.chars().count());
    let (plain, _) = HeadersPanel::gen_header(Header::Cpu, Some((Header::Name, SortedOrder::Desc)), 4);
    assert_eq!(plain, "cpu  ");
}

#[test]
fn debug_event_line_and_scrolling() {
    let event = TimedEvent {
        timestamp: Some(65_123),
        event_type: "Refresh".to_string(),
        details: "docker ps".to_string(),
        latency_ms: Some(12),
    };
    assert_eq!(DebugPanel::format_event(&event), "5.123s Refresh docker ps [12ms]");
    let unknown = TimedEvent {
        timestamp: None,
        event_type: "A".to_string(),
        details: "b".to_string(),
        latency_ms: None,
    };
    assert_eq!(DebugPanel::format_event(&unknown), "??s A b");

    let mut panel = DebugPanel::new();
    panel.add_event_at("A".to_string(), "one".to_string(), None, Some(0));
    panel.add_event_at("B".to_string(), "two".to_string(), None, Some(1));
    panel.add_event_at("C".to_string(), "three".to_string(), None, Some(2));
    assert_eq!(panel.scroll_position(), 2);
    panel.scroll_down();
    assert_eq!(panel.scroll_position(), 2);
    panel.scroll_to_top();
    panel.scroll_up();
    assert_eq!(panel.scroll_position(), 0);
    panel.scroll_down();
    assert_eq!(panel.scroll_position(), 1);
    panel.scroll_to_bottom();
    assert_eq!(panel.scroll_position(), 2);
}
