use oxker_tui::events::{CoreEvent, UIEventHandler};
use oxker_tui::gui_state::{DeleteButton, GuiState, Region, SelectablePanel, Status};
use oxker_tui::input::{InputAction, InputHandler, MouseInput, MouseKind};
use oxker_tui::layout::Rect;
use oxker_tui::model::{
    ContainerId, CoreCommand, Header, KeyBinding, KeyCode, KeyModifiers, Keymap, SortField, SortOrder,
};
use oxker_tui::ui_state::{EventContainerItem, LogLine, UIContainerState};

fn one(k: KeyCode) -> KeyBinding {
    KeyBinding { primary: k, secondary: None }
}

fn two(a: KeyCode, b: KeyCode) -> KeyBinding {
    KeyBinding { primary: a, secondary: Some(b) }
}

fn ch(c: char) -> KeyBinding {
    one(KeyCode::Char(c))
}

fn keymap() -> Keymap {
    Keymap {
        clear: two(KeyCode::Char('c'), KeyCode::Esc),
        delete_confirm: ch('y'),
        delete_deny: ch('n'),
        exec_container: ch('e'),
        filter_mode: two(KeyCode::Char('/'), KeyCode::F(1)),
        force_redraw: ch('f'),
        log_scroll_back: one(KeyCode::Left),
        log_scroll_forward: one(KeyCode::Right),
        log_section_height_decrease: ch('-'),
        log_section_height_increase: ch('='),
        log_section_toggle: ch('\\'),
        quit: ch('q'),
        save_logs: ch('s'),
        scroll_down_many: one(KeyCode::PageDown),
        scroll_down_one: two(KeyCode::Down, KeyCode::Char('j')),
        scroll_end: one(KeyCode::End),
        scroll_many: KeyModifiers { bits: 2 },
        scroll_start: one(KeyCode::Home),
        scroll_up_many: one(KeyCode::PageUp),
        scroll_up_one: two(KeyCode::Up, KeyCode::Char('k')),
        select_next_panel: one(KeyCode::Tab),
        select_previous_panel: one(KeyCode::BackTab),
        sort_by_cpu: ch('4'),
        sort_by_id: ch('6'),
        sort_by_image: ch('7'),
        sort_by_memory: ch('5'),
        sort_by_name: ch('1'),
        sort_by_rx: ch('8'),
        sort_by_state: ch('2'),
        sort_by_status: ch('3'),
        sort_by_tx: ch('9'),
        sort_reset: ch('0'),
        toggle_help: ch('h'),
        toggle_mouse_capture: ch('m'),
    }
}

fn no_mods() -> KeyModifiers {
    KeyModifiers { bits: 0 }
}

fn event(id: &str, state: &str) -> EventContainerItem {
    EventContainerItem {
        id: id.to_string(),
        name: format!("{id}-name"),
        image: "img".to_string(),
        state: state.to_string(),
        status: "Up".to_string(),
        ports: vec![],
    }
}

fn setup() -> (InputHandler, GuiState, UIContainerState) {
    let handler = InputHandler::new(keymap());
    let gui = GuiState::new(true);
    let mut ui = UIContainerState::new();
    ui.update_containers(vec![event("a", "running"), event("b", "running"), event("c", "exited")]);
    (handler, gui, ui)
}

fn press(h: &InputHandler, gui: &mut GuiState, ui: &mut UIContainerState, k: KeyCode) -> Vec<InputAction> {
    h.button_press(gui, ui, k, no_mods(), 7, 1_000)
}

#[test]
fn quit_key_quits_outside_the_filter() {
    let (h, mut gui, mut ui) = setup();
    let acts = press(&h, &mut gui, &mut ui, KeyCode::Char('q'));
    assert!(matches!(acts.as_slice(), [InputAction::Quit]));

    let acts = h.button_press(&mut gui, &mut ui, KeyCode::Char('c'), KeyModifiers { bits: 2 }, 7, 0);
    assert!(matches!(acts.first(), Some(InputAction::Quit)));

    gui.status_push(Status::Filter);
    let acts = press(&h, &mut gui, &mut ui, KeyCode::Char('q'));
    assert!(acts.is_empty());
    assert_eq!(ui.filter_term, "q");
}

#[test]
fn down_key_moves_the_container_selection() {
    let (h, mut gui, mut ui) = setup();
    assert_eq!(gui.get_selected_panel(), SelectablePanel::Containers);
    press(&h, &mut gui, &mut ui, KeyCode::Down);
    assert_eq!(ui.get_selected_container_id().unwrap().get(), "b");
    press(&h, &mut gui, &mut ui, KeyCode::Char('j'));
    assert_eq!(ui.get_selected_container_id().unwrap().get(), "c");
    press(&h, &mut gui, &mut ui, KeyCode::Home);
    assert_eq!(ui.get_selected_container_id().unwrap().get(), "a");
    press(&h, &mut gui, &mut ui, KeyCode::End);
    assert_eq!(ui.get_selected_container_id().unwrap().get(), "c");
}

#[test]
fn sort_key_sends_a_sort_command() {
    let (h, mut gui, mut ui) = setup();
    let acts = press(&h, &mut gui, &mut ui, KeyCode::Char('1'));
    match acts.as_slice() {
        [InputAction::Send(CoreCommand::SortContainers(field, order))] => {
            assert_eq!(*field, SortField::Name);
            assert_eq!(*order, SortOrder::Ascending);
        }
        other => panic!("unexpected {other:?}"),
    }
}

#[test]
fn filter_mode_refreshes_and_help_toggles() {
    let (h, mut gui, mut ui) = setup();
    let acts = press(&h, &mut gui, &mut ui, KeyCode::Char('/'));
    assert!(matches!(acts.as_slice(), [InputAction::Send(CoreCommand::RefreshContainers)]));
    assert!(gui.get_status().contains(Status::Filter));
    press(&h, &mut gui, &mut ui, KeyCode::Char('w'));
    press(&h, &mut gui, &mut ui, KeyCode::Esc);
    assert!(!gui.get_status().contains(Status::Filter));

    press(&h, &mut gui, &mut ui, KeyCode::Char('h'));
    assert!(gui.get_status().contains(Status::Help));
    press(&h, &mut gui, &mut ui, KeyCode::Char('h'));
    assert!(!gui.get_status().contains(Status::Help));
}

#[test]
fn panels_cycle_and_exec_and_mouse_keys() {
    let (h, mut gui, mut ui) = setup();
    press(&h, &mut gui, &mut ui, KeyCode::Tab);
    assert_eq!(gui.get_selected_panel(), SelectablePanel::Commands);
    press(&h, &mut gui, &mut ui, KeyCode::BackTab);
    assert_eq!(gui.get_selected_panel(), SelectablePanel::Containers);
    let acts = press(&h, &mut gui, &mut ui, KeyCode::Char('e'));
    assert!(matches!(acts.as_slice(), [InputAction::Exec]));
    let acts = press(&h, &mut gui, &mut ui, KeyCode::Char('m'));
    assert!(matches!(acts.as_slice(), [InputAction::ToggleMouseCapture]));
}

#[test]
fn error_status_swallows_keys_until_cleared() {
    let (h, mut gui, mut ui) = setup();
    gui.status_push(Status::Error);
    press(&h, &mut gui, &mut ui, KeyCode::Down);
    assert_eq!(ui.get_selected_container_id().unwrap().get(), "a");
    press(&h, &mut gui, &mut ui, KeyCode::Char('c'));
    assert!(!gui.get_status().contains(Status::Error));
}

#[test]
fn delete_dialog_confirms_with_a_click() {
    let (h, mut gui, mut ui) = setup();
    gui.set_delete_container(Some(ContainerId::from_string("b".to_string())));
    assert!(gui.get_status().contains(Status::DeleteConfirm));
    gui.update_region_map(Region::Delete(DeleteButton::Confirm), Rect { x: 10, y: 10, width: 5, height: 1 });
    gui.update_region_map(Region::Delete(DeleteButton::Cancel), Rect { x: 20, y: 10, width: 5, height: 1 });
    let click = MouseInput { kind: MouseKind::LeftDown, column: 11, row: 10 };
    let acts = h.mouse_event(&mut gui, &mut ui, click, no_mods());
    match acts.as_slice() {
        [InputAction::SendOrFail(CoreCommand::RemoveContainer(id))] => assert_eq!(id, "b"),
        other => panic!("unexpected {other:?}"),
    }
}

#[test]
fn delete_dialog_denied_by_key() {
    let (h, mut gui, mut ui) = setup();
    gui.set_delete_container(Some(ContainerId::from_string("b".to_string())));
    let acts = press(&h, &mut gui, &mut ui, KeyCode::Char('n'));
    assert!(acts.is_empty());
    assert!(!gui.get_status().contains(Status::DeleteConfirm));
    assert!(gui.get_delete_container().is_none());
}

#[test]
fn header_click_sorts() {
    let (h, mut gui, mut ui) = setup();
    gui.update_region_map(Region::Header(Header::Cpu), Rect { x: 30, y: 0, width: 6, height: 1 });
    let click = MouseInput { kind: MouseKind::LeftDown, column: 31, row: 0 };
    let acts = h.mouse_event(&mut gui, &mut ui, click, no_mods());
    match acts.as_slice() {
        [InputAction::Send(CoreCommand::SortContainers(field, _))] => assert_eq!(*field, SortField::Cpu),
        other => panic!("unexpected {other:?}"),
    }
}

#[test]
fn core_events_update_the_state() {
    let handler = UIEventHandler::new();
    let mut gui = GuiState::new(true);
    let mut ui = UIContainerState::new();
    gui.status_push(Status::Init);
    let out = handler.handle_event(&mut gui, &mut ui, CoreEvent::ContainerListUpdate(vec![event("a", "running")]));
    assert!(out.redraw);
    assert!(!gui.get_status().contains(Status::Init));
    assert_eq!(ui.get_container_count(), 1);

    handler.handle_event(
        &mut gui,
        &mut ui,
        CoreEvent::ContainerLogsUpdate {
            container_id: "a".to_string(),
            logs: vec![LogLine { message: "one".to_string() }, LogLine { message: "two".to_string() }],
        },
    );
    assert_eq!(ui.get_logs().len(), 2);
    assert_eq!(gui.get_ui_logs_position(), 1);

    handler.handle_event(&mut gui, &mut ui, CoreEvent::Error("boom".to_string()));
    assert!(gui.get_status().contains(Status::Error));

    handler.handle_event(&mut gui, &mut ui, CoreEvent::ContainerRemoved("a".to_string()));
    assert_eq!(ui.get_container_count(), 0);
}

#[test]
fn loading_events_drive_the_animation() {
    let handler = UIEventHandler::new();
    let mut gui = GuiState::new(true);
    let mut ui = UIContainerState::new();
    let id = "01234567-89ab-cdef-0123-456789abcdef".to_string();
    let out = handler.handle_event(&mut gui, &mut ui, CoreEvent::LoadingStarted(id.clone()));
    assert!(out.animate);
    assert!(gui.is_loading());
    let out = handler.handle_event(&mut gui, &mut ui, CoreEvent::LoadingStarted("not a uuid".to_string()));
    assert!(!out.animate);
    handler.handle_event(&mut gui, &mut ui, CoreEvent::LoadingFinished(id));
    assert!(!gui.is_loading());
}

#[test]
fn quit_key_quits_on_the_error_and_start_up_screens() {
    let (h, mut gui, mut ui) = setup();
    gui.status_push(Status::Error);
    let acts = press(&h, &mut gui, &mut ui, KeyCode::Char('q'));
    assert!(matches!(acts.as_slice(), [InputAction::Quit]));

    gui.status_push(Status::Init);
    let acts = press(&h, &mut gui, &mut ui, KeyCode::Char('q'));
    assert!(matches!(acts.as_slice(), [InputAction::Quit]));

    let (h, mut gui, mut ui) = setup();
    gui.status_push(Status::Init);
    let acts = press(&h, &mut gui, &mut ui, KeyCode::Char('q'));
    assert!(matches!(acts.first(), Some(InputAction::Quit)));
}

#[test]
fn removal_closes_only_its_own_delete_dialog() {
    let handler = UIEventHandler::new();
    let (_, mut gui, mut ui) = setup();
    gui.set_delete_container(Some(ContainerId::from_string("b".to_string())));

    handler.handle_event(&mut gui, &mut ui, CoreEvent::ContainerRemoved("a".to_string()));
    assert_eq!(ui.get_container_count(), 2);
    assert_eq!(gui.get_delete_container().unwrap().get(), "b");
    assert!(gui.get_status().contains(Status::DeleteConfirm));

    handler.handle_event(&mut gui, &mut ui, CoreEvent::ContainerRemoved("b".to_string()));
    assert_eq!(ui.get_container_count(), 1);
    assert!(gui.get_delete_container().is_none());
    assert!(!gui.get_status().contains(Status::DeleteConfirm));
}
