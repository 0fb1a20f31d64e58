use oxker_tui::debug::{CategoryColor, EventCategory};
use oxker_tui::ids::duration_debug_string;
use oxker_tui::layout::Constraint;
use oxker_tui::gui_state::{GuiState, Status};
use oxker_tui::model::ContainerId;
use oxker_tui::layout::{centered, InfoBox, ModalOverlay, Position, Rect};
use oxker_tui::main_view::MainView;
use oxker_tui::model::{ContainerPorts, DockerCommand, KeyBinding, KeyCode, RunningState, State};
use oxker_tui::panels::{
    ConfirmationModal, ContainersPanel, DebugPanel, DeleteConfirmPanel, ErrorPanel, FilterPanel,
    HelpPanel, LogsContent, LogsPanel, PortsPanel, TimedEvent,
};
use oxker_tui::ui_state::{EventContainerItem, UIContainerState};
use oxker_tui::view_models::FrameViewModel;
use uuid::Uuid;

fn screen(width: u16, height: u16) -> Rect {
    Rect { x: 0, y: 0, width, height }
}

fn inside(inner: Rect, outer: Rect) -> bool {
    outer.x <= inner.x
        && inner.x + inner.width <= outer.x + outer.width
        && outer.y <= inner.y
        && inner.y + inner.height <= outer.y + outer.height
}

fn key(c: char) -> KeyBinding {
    KeyBinding { primary: KeyCode::Char(c), secondary: None }
}

fn event(id: &str, name: &str, image: &str) -> EventContainerItem {
    EventContainerItem {
        id: id.to_string(),
        name: name.to_string(),
        image: image.to_string(),
        state: "running".to_string(),
        status: "Up 2 hours".to_string(),
        ports: vec![],
    }
}

#[test]
fn test_confirmation_modal_stop() {
    let modal = ConfirmationModal::new();
    let mut gui = GuiState::new(true);
    let area = screen(80, 24);
    let a = modal.layout(DockerCommand::Stop, "test-container", area, &mut gui);
    let (w, h) = ConfirmationModal::calculate_size(DockerCommand::Stop, "test-container");
    assert_eq!(a.dialog, centered(area, w, h));
    assert!(inside(a.dialog, area));
    assert!(inside(a.question, a.dialog));
    assert!(inside(a.cancel, a.dialog));
    assert!(inside(a.confirm, a.dialog));
}

#[test]
fn test_confirmation_modal_delete() {
    let modal = ConfirmationModal::new();
    let mut gui = GuiState::new(true);
    let area = screen(100, 30);
    let a = modal.layout(DockerCommand::Delete, "container-to-delete", area, &mut gui);
    let (w, h) = ConfirmationModal::calculate_size(DockerCommand::Delete, "container-to-delete");
    // The question "Are you sure you want to delete container: container-to-delete?"
    // and its margin make the dialog wider than the 60-column minimum.
    assert_eq!((w, h), (69, 12));
    assert_eq!(a.dialog, Rect { x: 15, y: 9, width: 69, height: 12 });
    assert!(inside(a.keys, a.dialog));
}

#[test]
fn test_delete_confirm_panel() {
    let panel = DeleteConfirmPanel::new();
    let mut gui = GuiState::new(true);
    let area = screen(80, 24);
    let a = panel.layout("test-container", area, &mut gui);
    let (w, h) = DeleteConfirmPanel::calculate_size("test-container");
    assert_eq!(a.dialog, centered(area, w, h));
    assert!(inside(a.dialog, area));
    assert!(inside(a.yes, a.dialog));
    assert!(inside(a.no, a.dialog));
}

#[test]
fn test_delete_confirm_panel_custom_keymap() {
    let panel = DeleteConfirmPanel::new();
    let mut gui = GuiState::new(true);
    let area = screen(100, 30);
    let name = "long-container-name-that-should-resize-dialog";
    let a = panel.layout(name, area, &mut gui);
    let (w, _) = DeleteConfirmPanel::calculate_size(name);
    assert_eq!(a.dialog.width, w);
    assert!(w > DeleteConfirmPanel::calculate_size("test-container").0);
    assert!(inside(a.dialog, area));
    let enter = KeyBinding { primary: KeyCode::Enter, secondary: None };
    let esc = KeyBinding { primary: KeyCode::Esc, secondary: None };
    assert!(DeleteConfirmPanel::yes_text(enter, key('y')).ends_with("yes"));
    assert!(DeleteConfirmPanel::no_text(esc, key('n')).ends_with("no"));
}

#[test]
fn test_error_panel_render() {
    let area = screen(80, 24);
    let r = ErrorPanel::area("", true, key('c'), key('q'), "oxker", "0.1.0", area);
    let (w, h) = ErrorPanel::calculate_size("", true, key('c'), key('q'), "oxker", "0.1.0");
    assert_eq!(r, centered(area, w, h));
    assert!(inside(r, area));
}

#[test]
fn test_help_panel_render() {
    let keys = HelpPanel::generate_keymap_section();
    let widest = HelpPanel::widest(&keys);
    let heights = [10, 2, 3, keys.len(), 3];
    let area = screen(120, 40);
    let a = HelpPanel::layout(widest, heights, area);
    assert!(inside(a.area, area));
    assert_eq!(a.area.width as usize, widest.unwrap() + 4);
    assert_eq!(a.sections.len(), 5);
}

#[test]
fn test_toast_render() {
    let info_box = InfoBox::new();
    let area = screen(80, 24);
    let r = info_box.area(area, "Test message".len());
    assert_eq!(r, Rect { x: 48, y: 20, width: 30, height: 3 });
}

#[test]
fn test_loading_indicator_visibility() {
    let mut gui_state = GuiState::new(false);
    assert!(!gui_state.is_loading());
    let uuid = Uuid::new_v4().as_u128();
    gui_state.add_loading_uuid(uuid, 1_000);
    assert!(gui_state.is_loading());
    gui_state.remove_loading_uuid(uuid);
    assert!(!gui_state.is_loading());
}

#[test]
fn test_loading_indicator_with_multiple_operations() {
    let mut gui_state = GuiState::new(false);
    let uuid1 = Uuid::new_v4().as_u128();
    let uuid2 = Uuid::new_v4().as_u128();
    let uuid3 = Uuid::new_v4().as_u128();
    gui_state.add_loading_uuid(uuid1, 1_000);
    gui_state.add_loading_uuid(uuid2, 1_000);
    gui_state.add_loading_uuid(uuid3, 1_000);
    assert_eq!(gui_state.loading_uuid_count(), 3);
    assert!(gui_state.is_loading());
}

#[test]
fn test_ports_panel_no_ports() {
    assert_eq!(PortsPanel::empty_text(State::Running(RunningState::Healthy)), "no ports");
}

#[test]
fn test_ports_panel_dead_container() {
    assert_eq!(PortsPanel::empty_text(State::Dead), "");
}

#[test]
fn test_draw_blocks_ports_no_ports() {
    assert_eq!(PortsPanel::empty_text(State::Running(RunningState::Healthy)), "no ports");
    assert_eq!(PortsPanel::empty_text(State::Paused), "no ports");
    assert_eq!(PortsPanel::empty_text(State::Restarting), "no ports");
}

#[test]
fn test_draw_blocks_ports_no_ports_dead() {
    assert_eq!(PortsPanel::empty_text(State::Dead), "");
    assert_eq!(PortsPanel::empty_text(State::Exited), "");
}

#[test]
fn test_ports_panel_with_ports() {
    let ports = vec![
        ContainerPorts { ip: Some("0.0.0.0".to_string()), private: 80, public: Some(8080) },
        ContainerPorts { ip: Some("0.0.0.0".to_string()), private: 443, public: Some(8443) },
    ];
    let lines = PortsPanel::port_lines(&ports, 7);
    assert_eq!(lines.len(), 3);
    assert_eq!(lines[0], "     ip   private   public");
    assert_eq!(lines[1], "0.0.0.0        80     8080");
    assert_eq!(lines[2], "0.0.0.0       443     8443");
}

#[test]
fn test_containers_empty_state() {
    assert!(ContainersPanel::empty_text(false, false, "⠋").contains("no containers running"));
}

#[test]
fn test_containers_loading_state() {
    assert!(ContainersPanel::empty_text(false, true, "⠋").contains("loading"));
}

#[test]
fn test_logs_panel_empty() {
    match LogsPanel::content(false, false, 0, 0, "⠋", 15) {
        LogsContent::Message(s) => assert_eq!(s, "no logs found"),
        _ => panic!("expected a message"),
    }
}

#[test]
fn test_logs_panel_parsing_state() {
    match LogsPanel::content(true, false, 0, 0, "⠋", 15) {
        LogsContent::Message(s) => assert_eq!(s, "parsing logs ⠋"),
        _ => panic!("expected a message"),
    }
}

#[test]
fn test_logs_panel_with_logs() {
    match LogsPanel::content(false, false, 3, 2, "⠋", 15) {
        LogsContent::Lines { selected, padding } => {
            assert_eq!(selected, Some(2));
            assert_eq!(padding, 3);
        }
        _ => panic!("expected the lines"),
    }
}

#[test]
fn test_draw_blocks_whole_layout() {
    let mut ui = UIContainerState::new();
    ui.update_containers(vec![
        event("1", "container_1", "image_1"),
        event("2", "container_2", "image_2"),
        event("3", "container_3", "image_3"),
    ]);
    let gui = GuiState::new(true);
    let vm = FrameViewModel::from_state(&ui, &gui, false);
    let area = screen(160, 30);
    let plan = MainView::new().plan(&vm, area);
    assert!(inside(plan.headers, area));
    assert!(inside(plan.containers, area));
    assert!(plan.headers.y < plan.containers.y);
    assert!(plan.filter.is_none());
    let logs = plan.logs.unwrap();
    assert!(inside(logs, area));
    assert!(plan.containers.y < logs.y);
}

#[test]
fn overlay_positions_at_the_screen_edge() {
    let parent = Rect { x: 0, y: 65_500, width: 80, height: 35 };
    let centred = ModalOverlay::new().area(parent);
    assert_eq!(centred, Rect { x: 20, y: 65_509, width: 40, height: 17 });
    let bottom = ModalOverlay::new().position(Position::Bottom).area(parent);
    assert_eq!(bottom, Rect { x: 20, y: 65_516, width: 40, height: 17 });
    let top = ModalOverlay::new().position(Position::Top).area(screen(80, 24));
    assert_eq!(top, Rect { x: 20, y: 2, width: 40, height: 12 });
}

fn three_containers() -> UIContainerState {
    let mut ui = UIContainerState::new();
    ui.update_containers(vec![
        event("1", "container_1", "image_1"),
        event("2", "container_2", "image_2"),
        event("3", "container_3", "image_3"),
    ]);
    ui
}

#[test]
fn test_draw_blocks_whole_layout_with_filter_bar() {
    let ui = three_containers();
    let mut gui = GuiState::new(true);
    gui.status_push(Status::Filter);
    let vm = FrameViewModel::from_state(&ui, &gui, false);
    let area = screen(160, 30);
    let plan = MainView::new().plan(&vm, area);
    let bar = plan.filter.unwrap();
    assert_eq!(bar, Rect { x: 0, y: 29, width: 160, height: 1 });
    assert!(plan.containers.y + plan.containers.height <= bar.y);
}

#[test]
fn test_draw_blocks_whole_layout_long_name() {
    let mut ui = UIContainerState::new();
    ui.update_containers(vec![event("1", "a_long_long_long_long_long_long_container_name", "image_1")]);
    let gui = GuiState::new(true);
    let vm = FrameViewModel::from_state(&ui, &gui, false);
    let area = screen(190, 30);
    let plan = MainView::new().plan(&vm, area);
    assert!(inside(plan.containers, area));
    assert!(plan.commands.is_some());
}

#[test]
fn test_draw_blocks_whole_layout_no_logs() {
    let ui = three_containers();
    let gui = GuiState::new(false);
    let vm = FrameViewModel::from_state(&ui, &gui, false);
    let plan = MainView::new().plan(&vm, screen(160, 30));
    assert!(plan.logs.is_none());
    assert!(plan.commands.is_some());
}

#[test]
fn test_draw_blocks_whole_layout_short_height_logs() {
    let ui = three_containers();
    let gui = GuiState::new(true);
    let vm = FrameViewModel::from_state(&ui, &gui, false);
    let area = screen(160, 30);
    let plan = MainView::new().plan(&vm, area);
    let logs = plan.logs.unwrap();
    assert!(inside(logs, area));
    assert!(logs.height >= 1);
}

#[test]
fn test_draw_blocks_whole_layout_help_panel() {
    let ui = three_containers();
    let mut gui = GuiState::new(true);
    gui.status_push(Status::Help);
    let vm = FrameViewModel::from_state(&ui, &gui, false);
    let area = screen(160, 40);
    let normal = MainView::new().plan(&FrameViewModel::from_state(&ui, &GuiState::new(true), false), area);
    let plan = MainView::new().plan(&vm, area);
    assert_eq!(plan.containers, normal.containers);
    let keys = HelpPanel::generate_keymap_section();
    let help = HelpPanel::layout(HelpPanel::widest(&keys), [10, 2, 3, keys.len(), 3], area);
    assert!(inside(help.area, area));
}

#[test]
fn test_draw_blocks_whole_layout_error() {
    let ui = three_containers();
    let mut gui = GuiState::new(true);
    gui.status_push(Status::Error);
    let vm = FrameViewModel::from_state(&ui, &gui, false);
    assert!(vm.status.contains(Status::Error));
    let area = screen(160, 40);
    let r = ErrorPanel::area("", true, key('c'), key('q'), "oxker", "0.1.0", area);
    assert!(inside(r, area));
}

#[test]
fn test_draw_blocks_whole_layout_delete() {
    let ui = three_containers();
    let mut gui = GuiState::new(true);
    gui.set_delete_container(Some(ContainerId::from_string("2".to_string())));
    let vm = FrameViewModel::from_state(&ui, &gui, false);
    let overlays = MainView::new().overlays(&vm, &mut gui, &ui);
    assert_eq!(overlays.delete_name.as_deref(), Some("container_2"));
    let area = screen(160, 40);
    let a = DeleteConfirmPanel::new().layout("container_2", area, &mut gui);
    assert!(inside(a.dialog, area));
}

#[test]
fn test_draw_blocks_whole_layout_info_box() {
    let ui = three_containers();
    let mut gui = GuiState::new(true);
    gui.set_info_box("This is a test", 1_000);
    let vm = FrameViewModel::from_state(&ui, &gui, false);
    let (text, at) = vm.info_text.clone().unwrap();
    assert_eq!(text, "This is a test");
    assert_eq!(at, 1_000);
    let r = InfoBox::new().area(screen(160, 40), text.len());
    assert_eq!(r, Rect { x: 128, y: 36, width: 30, height: 3 });
}

#[test]
fn test_filter_panel_render() {
    assert_eq!(FilterPanel::term_text(&Some("test".to_string())), "test");
}

#[test]
fn test_debug_panel_empty() {
    let panel = DebugPanel::new();
    assert!(panel.event_history().is_empty());
}

#[test]
fn test_debug_panel_with_events() {
    let mut panel = DebugPanel::new();
    panel.add_event_at("ContainerRefresh".to_string(), "docker ps".to_string(), Some(45), Some(61_250));
    panel.add_event_at("EventBus".to_string(), "Published ContainerListUpdate".to_string(), None, None);
    assert_eq!(panel.event_history().len(), 2);
    let first: &TimedEvent = &panel.event_history()[0];
    assert_eq!(DebugPanel::format_event(first), "1.250s ContainerRefresh docker ps [45ms]");
    assert_eq!(
        DebugPanel::format_event(&panel.event_history()[1]),
        "??s EventBus Published ContainerListUpdate"
    );
}

#[test]
fn test_logs_panel_selection_visibility() {
    match LogsPanel::content(false, false, 5, 2, "⠋", 10) {
        LogsContent::Lines { selected, padding } => {
            assert_eq!(selected, Some(2));
            assert_eq!(padding, 2);
        }
        _ => panic!("expected the lines"),
    }
    match LogsPanel::content(false, false, 5, 5, "⠋", 10) {
        LogsContent::Lines { selected, .. } => assert_eq!(selected, None),
        _ => panic!("expected the lines"),
    }
}

#[test]
fn test_containers_list_display() {
    let mut ui = UIContainerState::new();
    ui.update_containers(vec![
        event("container1", "test-container-1", "nginx:latest"),
        event("container2", "test-container-2", "postgres:13"),
    ]);
    let gui = GuiState::new(true);
    let vm = FrameViewModel::from_state(&ui, &gui, false);
    assert_eq!(vm.containers.len(), 2);
    assert!(vm.has_containers);
    assert_eq!(vm.selected_container, Some(0));
    assert_eq!(vm.containers[0].name, "test-container-1");
    assert_eq!(vm.containers[0].image, "nginx:latest");
    assert_eq!(vm.containers[1].name, "test-container-2");
    assert_eq!(vm.containers[1].image, "postgres:13");
}

fn r(x: u16, y: u16, width: u16, height: u16) -> Rect {
    Rect { x, y, width, height }
}

#[test]
fn plan_is_made_of_the_split_parts() {
    let ui = three_containers();
    let gui = GuiState::new(true);
    let vm = FrameViewModel::from_state(&ui, &gui, false);
    let whole = vec![r(0, 0, 100, 1), r(0, 1, 100, 39)];
    let upper = vec![r(0, 1, 100, 29), r(0, 30, 100, 10)];
    let cl = vec![r(0, 1, 100, 20), r(0, 21, 100, 9)];
    let cc = vec![r(0, 1, 90, 20), r(90, 1, 10, 20)];
    let lower = vec![r(0, 30, 73, 10), r(73, 30, 27, 10)];
    let p = MainView::plan_from_parts(&vm, &whole, &upper, &cl, &cc, &lower);
    assert_eq!(p.headers, whole[0]);
    assert!(p.filter.is_none());
    assert_eq!(p.containers, cc[0]);
    assert_eq!(p.commands, Some(cc[1]));
    assert_eq!(p.logs, Some(cl[1]));
    assert_eq!(p.charts, Some(lower[0]));
    assert_eq!(p.ports, Some(lower[1]));

    let short = vec![r(0, 1, 100, 29), r(0, 30, 100, 4)];
    let p = MainView::plan_from_parts(&vm, &whole, &short, &cl, &cc, &lower);
    assert!(p.charts.is_none());
    assert!(p.ports.is_none());
    // The selected container has a port view with no ip, so the ip column is 7 wide.
    assert_eq!(MainView::ports_width_for(&vm), 28);
}

#[test]
fn dialogs_are_made_of_the_split_parts() {
    let mut gui = GuiState::new(true);
    let dialog = r(10, 5, 60, 12);
    let rows: Vec<Rect> = (0..8).map(|i| r(10, 5 + i, 60, 1)).collect();
    let buttons: Vec<Rect> = (0..5).map(|i| r(10 + 12 * i, 8, 12, 3)).collect();
    let a = ConfirmationModal::areas_from_parts(dialog, &rows, &buttons, &mut gui);
    assert_eq!(a.dialog, dialog);
    assert_eq!(a.question, rows[1]);
    assert_eq!(a.keys, rows[5]);
    assert_eq!(a.cancel, buttons[1]);
    assert_eq!(a.confirm, buttons[3]);

    let rows: Vec<Rect> = (0..5).map(|i| r(10, 5 + i, 60, 1)).collect();
    let d = DeleteConfirmPanel::areas_from_parts(dialog, &rows, &buttons, &mut gui);
    assert_eq!(d.question, rows[1]);
    assert_eq!(d.no, buttons[1]);
    assert_eq!(d.yes, buttons[3]);
}

#[test]
fn help_section_heights() {
    assert_eq!(
        HelpPanel::section_constraints([10, 2, 0, 17, 70_000]),
        vec![
            Constraint::Length(10),
            Constraint::Length(2),
            Constraint::Length(0),
            Constraint::Length(17),
            Constraint::Length(5),
        ]
    );
}

#[test]
fn duration_text_matches_the_standard_debug_form() {
    for ms in [0u64, 1, 2, 999, 1000, 1001, 1050, 1500, 1120, 61_250, 600_000, 3_600_001] {
        assert_eq!(
            duration_debug_string(ms),
            format!("{:?}", std::time::Duration::from_millis(ms)),
            "{ms} ms"
        );
    }
    assert_eq!(duration_debug_string(1500), "1.5s");
}

#[test]
fn event_category_colours() {
    assert_eq!(EventCategory::Render.color(), CategoryColor::Cyan);
    assert_eq!(EventCategory::GUI.color(), CategoryColor::LightBlue);
    assert_eq!(EventCategory::Error.color(), CategoryColor::Red);
}
