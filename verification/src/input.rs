//! What a key press or a mouse click does: the changes to the interface
//! and container state, and the work left to the caller (commands to the
//! core, terminal settings, quitting).
use vstd::prelude::*;
use crate::gui_state::{
    first_hit, header_at, info_shown, loading_started, loading_stopped, log_grown, log_shrunk,
    logs_down, logs_toggled, logs_up, panel_at, panel_backward, panel_forward, pushed,
    view_is_loading, without_status, DeleteButton, GuiState, GuiView, SelectablePanel, Status,
};
use crate::layout::{cell, clamped_rect, overlaps};
use crate::model::{
    bound_to, is_bound, opt_id_view, ContainerId, CoreCommand, CoreCommandView, DockerCommand,
    Header, KeyBinding, KeyCode, KeyModifiers, Keymap, SortField, SortOrder,
};
use crate::ui_state::{
    bumped, commands_after, filter_after, filter_before, sel_end, sel_next, sel_prev,
    selected_id, ContainerItemView, UIContainerState,
};

verus! {

/// Maps interface actions to commands for the core.
pub struct CommandMapper;

/// The core command that sends `command` to the container `id`.
pub open spec fn command_for(command: DockerCommand, id: Seq<char>) -> CoreCommandView {
    match command {
        DockerCommand::Start => CoreCommandView::StartContainer(id),
        DockerCommand::Stop => CoreCommandView::StopContainer(id),
        DockerCommand::Pause => CoreCommandView::PauseContainer(id),
        DockerCommand::Resume => CoreCommandView::UnpauseContainer(id),
        DockerCommand::Restart => CoreCommandView::RestartContainer(id),
        DockerCommand::Delete => CoreCommandView::RemoveContainer(id),
    }
}

/// The field the core sorts by for a column header.
pub open spec fn sort_field(h: Header) -> SortField {
    match h {
        Header::Name => SortField::Name,
        Header::State => SortField::State,
        Header::Status => SortField::Status,
        Header::Cpu => SortField::Cpu,
        Header::Memory => SortField::Memory,
        Header::Id => SortField::Id,
        Header::Image => SortField::Image,
        Header::Rx => SortField::NetworkRx,
        Header::Tx => SortField::NetworkTx,
    }
}

impl CommandMapper {
    /// The core command for `command` on the container `container_id`.
    pub fn docker_command_to_core(command: DockerCommand, container_id: &ContainerId) -> (c: CoreCommand)
        ensures
            c@ == command_for(command, container_id@),
    {
        let id = container_id.id.clone();
        match command {
            DockerCommand::Start => CoreCommand::StartContainer(id),
            DockerCommand::Stop => CoreCommand::StopContainer(id),
            DockerCommand::Pause => CoreCommand::PauseContainer(id),
            DockerCommand::Resume => CoreCommand::UnpauseContainer(id),
            DockerCommand::Restart => CoreCommand::RestartContainer(id),
            DockerCommand::Delete => CoreCommand::RemoveContainer(id),
        }
    }

    /// The core command that sorts by `header`, ascending or descending.
    pub fn header_to_sort_command(header: Header, ascending: bool) -> (c: CoreCommand)
        ensures
            c == CoreCommand::SortContainers(
                sort_field(header),
                if ascending {
                    SortOrder::Ascending
                } else {
                    SortOrder::Descending
                },
            ),
    {
        let field = match header {
            Header::Name => SortField::Name,
            Header::State => SortField::State,
            Header::Status => SortField::Status,
            Header::Cpu => SortField::Cpu,
            Header::Memory => SortField::Memory,
            Header::Id => SortField::Id,
            Header::Image => SortField::Image,
            Header::Rx => SortField::NetworkRx,
            Header::Tx => SortField::NetworkTx,
        };
        let order = if ascending {
            SortOrder::Ascending
        } else {
            SortOrder::Descending
        };
        CoreCommand::SortContainers(field, order)
    }
}

/// Work that a key press or a click leaves to the caller.
#[derive(Debug)]
pub enum InputAction {
    /// Stop the application.
    Quit,
    /// Send a command to the core; a failure is only logged.
    Send(CoreCommand),
    /// Send a command to the core, unless the application runs inside a
    /// container; a failure shows the error status.
    SendOrFail(CoreCommand),
    /// Exec into the selected container, where possible.
    Exec,
    /// Switch mouse capture, then report with `mouse_capture_done`.
    ToggleMouseCapture,
    /// Start the timer of the loading animation.
    Animate,
}

/// The plain values of an action.
pub enum ActionView {
    Quit,
    Send(CoreCommandView),
    SendOrFail(CoreCommandView),
    Exec,
    ToggleMouseCapture,
    Animate,
}

impl View for InputAction {
    type V = ActionView;

    open spec fn view(&self) -> ActionView {
        match self {
            InputAction::Quit => ActionView::Quit,
            InputAction::Send(c) => ActionView::Send(c@),
            InputAction::SendOrFail(c) => ActionView::SendOrFail(c@),
            InputAction::Exec => ActionView::Exec,
            InputAction::ToggleMouseCapture => ActionView::ToggleMouseCapture,
            InputAction::Animate => ActionView::Animate,
        }
    }
}

/// The plain values of a list of actions.
pub open spec fn actions_view(s: Seq<InputAction>) -> Seq<ActionView> {
    s.map_values(|a: InputAction| a@)
}

/// What a key does besides sorting, in the usual state.
#[derive(Clone, Copy, Debug, PartialEq, Eq, Structural)]
pub enum OtherKey {
    Exec,
    Help,
    MouseCapture,
    LogShrink,
    LogGrow,
    LogToggle,
    SaveLogs,
    NextPanel,
    PreviousPanel,
    ScrollStart,
    ScrollEnd,
    UpOne,
    UpMany,
    DownOne,
    DownMany,
    FilterMode,
    LogBack,
    LogForward,
    Enter,
    Nothing,
}

/// The first binding of the keymap that `key` matches, in the order the
/// keys are checked; Enter when it matches none but is Enter.
pub open spec fn other_key(km: Keymap, key: KeyCode) -> OtherKey {
    if bound_to(km.exec_container, key) {
        OtherKey::Exec
    } else if bound_to(km.toggle_help, key) {
        OtherKey::Help
    } else if bound_to(km.toggle_mouse_capture, key) {
        OtherKey::MouseCapture
    } else if bound_to(km.log_section_height_decrease, key) {
        OtherKey::LogShrink
    } else if bound_to(km.log_section_height_increase, key) {
        OtherKey::LogGrow
    } else if bound_to(km.log_section_toggle, key) {
        OtherKey::LogToggle
    } else if bound_to(km.save_logs, key) {
        OtherKey::SaveLogs
    } else if bound_to(km.select_next_panel, key) {
        OtherKey::NextPanel
    } else if bound_to(km.select_previous_panel, key) {
        OtherKey::PreviousPanel
    } else if bound_to(km.scroll_start, key) {
        OtherKey::ScrollStart
    } else if bound_to(km.scroll_end, key) {
        OtherKey::ScrollEnd
    } else if bound_to(km.scroll_up_one, key) {
        OtherKey::UpOne
    } else if bound_to(km.scroll_up_many, key) {
        OtherKey::UpMany
    } else if bound_to(km.scroll_down_one, key) {
        OtherKey::DownOne
    } else if bound_to(km.scroll_down_many, key) {
        OtherKey::DownMany
    } else if bound_to(km.filter_mode, key) {
        OtherKey::FilterMode
    } else if bound_to(km.log_scroll_back, key) {
        OtherKey::LogBack
    } else if bound_to(km.log_scroll_forward, key) {
        OtherKey::LogForward
    } else if key == KeyCode::Enter {
        OtherKey::Enter
    } else {
        OtherKey::Nothing
    }
}

/// What `key` does besides sorting (see `other_key`).
pub fn classify_other(km: &Keymap, key: KeyCode) -> (c: OtherKey)
    ensures
        c == other_key(*km, key),
{
    if is_bound(km.exec_container, key) {
        OtherKey::Exec
    } else if is_bound(km.toggle_help, key) {
        OtherKey::Help
    } else if is_bound(km.toggle_mouse_capture, key) {
        OtherKey::MouseCapture
    } else if is_bound(km.log_section_height_decrease, key) {
        OtherKey::LogShrink
    } else if is_bound(km.log_section_height_increase, key) {
        OtherKey::LogGrow
    } else if is_bound(km.log_section_toggle, key) {
        OtherKey::LogToggle
    } else if is_bound(km.save_logs, key) {
        OtherKey::SaveLogs
    } else if is_bound(km.select_next_panel, key) {
        OtherKey::NextPanel
    } else if is_bound(km.select_previous_panel, key) {
        OtherKey::PreviousPanel
    } else if is_bound(km.scroll_start, key) {
        OtherKey::ScrollStart
    } else if is_bound(km.scroll_end, key) {
        OtherKey::ScrollEnd
    } else if is_bound(km.scroll_up_one, key) {
        OtherKey::UpOne
    } else if is_bound(km.scroll_up_many, key) {
        OtherKey::UpMany
    } else if is_bound(km.scroll_down_one, key) {
        OtherKey::DownOne
    } else if is_bound(km.scroll_down_many, key) {
        OtherKey::DownMany
    } else if is_bound(km.filter_mode, key) {
        OtherKey::FilterMode
    } else if is_bound(km.log_scroll_back, key) {
        OtherKey::LogBack
    } else if is_bound(km.log_scroll_forward, key) {
        OtherKey::LogForward
    } else if key == KeyCode::Enter {
        OtherKey::Enter
    } else {
        OtherKey::Nothing
    }
}

/// What a key does to the sorting, in the usual state.
#[derive(Clone, Copy, Debug, PartialEq, Eq, Structural)]
pub enum SortKey {
    Redraw,
    Sort(Header),
    Nothing,
}

/// The first sorting binding that `key` matches: a forced redraw, a reset
/// (sorting by name), or a column.
pub open spec fn sort_key(km: Keymap, key: KeyCode) -> SortKey {
    if bound_to(km.force_redraw, key) {
        SortKey::Redraw
    } else if bound_to(km.sort_reset, key) {
        SortKey::Sort(Header::Name)
    } else if bound_to(km.sort_by_name, key) {
        SortKey::Sort(Header::Name)
    } else if bound_to(km.sort_by_state, key) {
        SortKey::Sort(Header::State)
    } else if bound_to(km.sort_by_status, key) {
        SortKey::Sort(Header::Status)
    } else if bound_to(km.sort_by_cpu, key) {
        SortKey::Sort(Header::Cpu)
    } else if bound_to(km.sort_by_memory, key) {
        SortKey::Sort(Header::Memory)
    } else if bound_to(km.sort_by_id, key) {
        SortKey::Sort(Header::Id)
    } else if bound_to(km.sort_by_image, key) {
        SortKey::Sort(Header::Image)
    } else if bound_to(km.sort_by_rx, key) {
        SortKey::Sort(Header::Rx)
    } else if bound_to(km.sort_by_tx, key) {
        SortKey::Sort(Header::Tx)
    } else {
        SortKey::Nothing
    }
}

/// What `key` does to the sorting (see `sort_key`).
pub fn classify_sort(km: &Keymap, key: KeyCode) -> (c: SortKey)
    ensures
        c == sort_key(*km, key),
{
    if is_bound(km.force_redraw, key) {
        SortKey::Redraw
    } else if is_bound(km.sort_reset, key) {
        SortKey::Sort(Header::Name)
    } else if is_bound(km.sort_by_name, key) {
        SortKey::Sort(Header::Name)
    } else if is_bound(km.sort_by_state, key) {
        SortKey::Sort(Header::State)
    } else if is_bound(km.sort_by_status, key) {
        SortKey::Sort(Header::Status)
    } else if is_bound(km.sort_by_cpu, key) {
        SortKey::Sort(Header::Cpu)
    } else if is_bound(km.sort_by_memory, key) {
        SortKey::Sort(Header::Memory)
    } else if is_bound(km.sort_by_id, key) {
        SortKey::Sort(Header::Id)
    } else if is_bound(km.sort_by_image, key) {
        SortKey::Sort(Header::Image)
    } else if is_bound(km.sort_by_rx, key) {
        SortKey::Sort(Header::Rx)
    } else if is_bound(km.sort_by_tx, key) {
        SortKey::Sort(Header::Tx)
    } else {
        SortKey::Nothing
    }
}

/// How many steps a scroll takes: 10 with the scroll-many modifiers, else 1.
pub open spec fn scroll_steps(km: Keymap, modifiers: KeyModifiers) -> nat {
    if modifiers == km.scroll_many {
        10
    } else {
        1
    }
}

/// The containers' selection and the offered commands with their selection.
pub type NavState = (Option<usize>, Seq<DockerCommand>, Option<usize>);

/// The navigation state after moving the container selection with `step`.
pub open spec fn nav_step(items: Seq<ContainerItemView>, st: NavState, down: bool) -> NavState {
    let sel = if down {
        sel_next(st.0, items.len())
    } else {
        sel_prev(st.0, items.len())
    };
    let c = commands_after(items, sel, st.1, st.2);
    (sel, c.0, c.1)
}

/// The navigation state after `n` moves down (or up).
pub open spec fn nav_steps(items: Seq<ContainerItemView>, st: NavState, down: bool, n: nat) -> NavState
    decreases n,
{
    if n == 0 {
        st
    } else {
        nav_step(items, nav_steps(items, st, down, (n - 1) as nat), down)
    }
}

/// `v` counted up `n` times, wrapping.
pub open spec fn bumped_n(v: u64, n: nat) -> u64
    decreases n,
{
    if n == 0 {
        v
    } else {
        bumped(bumped_n(v, (n - 1) as nat))
    }
}

/// The logs panel scrolled down (or up) `n` lines of `max_logs`.
pub open spec fn logs_steps(v: GuiView, max_logs: nat, down: bool, n: nat) -> GuiView
    decreases n,
{
    if n == 0 {
        v
    } else {
        let w = logs_steps(v, max_logs, down, (n - 1) as nat);
        if down {
            logs_down(w, max_logs)
        } else {
            logs_up(w)
        }
    }
}

/// The navigation state of `ui`.
pub open spec fn nav_of(ui: &UIContainerState) -> NavState {
    (ui.containers.selected, ui.docker_commands.items@, ui.docker_commands.selected)
}

/// The key handling of the interface: the keymap, and whether the mouse is
/// captured.
pub struct InputHandler {
    pub keymap: Keymap,
    pub mouse_capture: bool,
}

impl InputHandler {
    /// A handler for `keymap`, with the mouse captured.
    pub fn new(keymap: Keymap) -> (h: Self)
        ensures
            h.keymap == keymap,
            h.mouse_capture,
    {
        InputHandler { keymap, mouse_capture: true }
    }

    /// How many steps a scroll takes (see `scroll_steps`).
    pub fn get_modifier_total(&self, modifiers: KeyModifiers) -> (n: u8)
        ensures
            n == scroll_steps(self.keymap, modifiers),
    {
        if modifiers == self.keymap.scroll_many {
            10
        } else {
            1
        }
    }

    /// Scroll the selected panel down (`down`) or up, `times` over: the
    /// containers by `times` scroll steps each (see `nav_steps`), the logs
    /// likewise by lines, the commands by one each.
    pub fn scroll(&self, gui: &mut GuiState, ui: &mut UIContainerState, modifiers: KeyModifiers, down: bool, times: u8)
        ensures
            scroll_effect(self.keymap, modifiers, down, times as nat, old(gui)@, *old(ui), final(gui)@, *final(ui)),
            final(gui).wf() == old(gui).wf(),
    {
        let m = self.get_modifier_total(modifiers);
        proof {
            assert(m * times <= 2550) by (nonlinear_arith)
                requires
                    m <= 10,
                    times <= 255,
            ;
        }
        let n: u32 = (m as u32) * (times as u32);
        match gui.get_selected_panel() {
            SelectablePanel::Containers => {
                let ghost items = ui.items();
                let ghost st0 = nav_of(ui);
                let ghost v0 = ui.version_view();
                let mut i: u32 = 0;
                while i < n
                    invariant
                        i <= n,
                        ui.items() == items,
                        nav_of(ui) == nav_steps(items, st0, down, i as nat),
                        ui.version_view() == bumped_n(v0, i as nat),
                        i > 0 ==> ui.logs@.len() == 0,
                        i == 0 ==> ui.logs@ == old(ui).logs@,
                        ui.same_settings(old(ui)),
                        ui.rendered_view() == old(ui).rendered_view(),
                    decreases n - i,
                {
                    if down {
                        ui.next_container();
                    } else {
                        ui.previous_container();
                    }
                    i = i + 1;
                }
            },
            SelectablePanel::Logs => {
                let max = ui.logs.len();
                let ghost g0 = gui@;
                let mut i: u32 = 0;
                while i < n
                    invariant
                        i <= n,
                        max == ui.logs@.len(),
                        gui@ == logs_steps(g0, max as nat, down, i as nat),
                        gui.wf() == old(gui).wf(),
                    decreases n - i,
                {
                    if down {
                        gui.scroll_ui_logs_down(max);
                    } else {
                        gui.scroll_ui_logs_up(max);
                    }
                    i = i + 1;
                }
            },
            SelectablePanel::Commands => {
                let ghost len = ui.docker_commands.items@.len();
                let ghost s0 = ui.docker_commands.selected;
                let mut i: u8 = 0;
                while i < times
                    invariant
                        i <= times,
                        ui.docker_commands.items@.len() == len,
                        ui.docker_commands.items@ == old(ui).docker_commands.items@,
                        ui.docker_commands.selected == sel_steps(s0, len, down, i as nat),
                        ui.containers == old(ui).containers,
                        ui.logs@ == old(ui).logs@,
                        ui.version_view() == old(ui).version_view(),
                        ui.rendered_view() == old(ui).rendered_view(),
                        ui.same_settings(old(ui)),
                    decreases times - i,
                {
                    if down {
                        ui.next_docker_command();
                    } else {
                        ui.previous_docker_command();
                    }
                    i = i + 1;
                }
            },
        }
    }

    /// Clear the error when the clear key is pressed (see `error_gui`).
    pub fn handle_error(&self, gui: &mut GuiState, key: KeyCode)
        requires
            old(gui).wf(),
        ensures
            final(gui).wf(),
            final(gui)@ == error_gui(self.keymap, key, old(gui)@),
    {
        if is_bound(self.keymap.clear, key) {
            gui.status_del(Status::Error);
        }
    }

    /// Close the help on its keys; the mouse capture key still switches the
    /// capture (see `help_gui`, `help_actions`).
    pub fn handle_help(&self, gui: &mut GuiState, key: KeyCode) -> (r: Vec<InputAction>)
        requires
            old(gui).wf(),
        ensures
            final(gui).wf(),
            final(gui)@ == help_gui(self.keymap, key, old(gui)@),
            actions_view(r@) == help_actions(self.keymap, key),
    {
        if is_bound(self.keymap.clear, key) || is_bound(self.keymap.toggle_help, key) {
            gui.status_del(Status::Help);
        }
        let mut r: Vec<InputAction> = Vec::new();
        if is_bound(self.keymap.toggle_mouse_capture, key) {
            r.push(InputAction::ToggleMouseCapture);
        }
        proof {
            assert(actions_view(r@) =~= help_actions(self.keymap, key));
        }
        r
    }

    /// Delete the container waiting for confirmation, if any.
    pub fn confirm_delete(&self, gui: &GuiState) -> (r: Vec<InputAction>)
        ensures
            actions_view(r@) == delete_request(gui@),
    {
        let mut r: Vec<InputAction> = Vec::new();
        match gui.get_delete_container() {
            Some(id) => {
                r.push(InputAction::SendOrFail(CommandMapper::docker_command_to_core(DockerCommand::Delete, &id)));
            },
            None => {},
        }
        proof {
            assert(actions_view(r@) =~= delete_request(gui@));
        }
        r
    }

    /// Close the delete dialog (see `delete_cleared`).
    pub fn clear_delete(&self, gui: &mut GuiState)
        requires
            old(gui).wf(),
        ensures
            final(gui).wf(),
            final(gui)@ == delete_cleared(old(gui)@),
    {
        gui.set_delete_container(None);
        gui.status_del(Status::DeleteConfirm);
    }

    /// Confirm or cancel the delete dialog (see `delete_gui`, `delete_actions`).
    pub fn handle_delete(&self, gui: &mut GuiState, key: KeyCode) -> (r: Vec<InputAction>)
        requires
            old(gui).wf(),
        ensures
            final(gui).wf(),
            final(gui)@ == delete_gui(self.keymap, key, old(gui)@),
            actions_view(r@) == delete_actions(self.keymap, key, old(gui)@),
    {
        if is_bound(self.keymap.delete_confirm, key) {
            self.confirm_delete(gui)
        } else {
            if is_bound(self.keymap.delete_deny, key) || is_bound(self.keymap.clear, key) {
                self.clear_delete(gui);
            }
            let r: Vec<InputAction> = Vec::new();
            proof {
                assert(actions_view(r@) =~= Seq::<ActionView>::empty());
            }
            r
        }
    }

    /// Edit or apply the filter (see `filter_key`, `filter_effect`).
    pub fn handle_filter(&self, gui: &mut GuiState, ui: &mut UIContainerState, key: KeyCode) -> (r: Vec<InputAction>)
        requires
            old(gui).wf(),
        ensures
            final(gui).wf(),
            filter_effect(filter_key(self.keymap, key), old(gui)@, *old(ui), final(gui)@, *final(ui), actions_view(r@)),
    {
        let mut r: Vec<InputAction> = Vec::new();
        if key == KeyCode::Esc {
            ui.clear_filter();
            r.push(InputAction::Send(CoreCommand::FilterContainers(String::new())));
            gui.status_del(Status::Filter);
        } else if key == KeyCode::Enter || is_bound(self.keymap.filter_mode, key) {
            r.push(InputAction::Send(CoreCommand::FilterContainers(ui.filter_term.clone())));
            gui.status_del(Status::Filter);
        } else {
            match key {
                KeyCode::Backspace => ui.pop_filter_char(),
                KeyCode::Char(c) => ui.push_filter_char(c),
                KeyCode::Right => ui.next_filter_field(),
                KeyCode::Left => ui.prev_filter_field(),
                _ => {},
            }
        }
        proof {
            assert(actions_view(r@) =~= filter_actions(filter_key(self.keymap, key), old(ui).filter_term@));
        }
        r
    }

    /// Redraw or sort (see `sort_key`): sorting asks the core to sort by
    /// the column, in the state's direction.
    pub fn handle_sort(&self, gui: &mut GuiState, ui: &UIContainerState, key: KeyCode) -> (r: Vec<InputAction>)
        ensures
            final(gui).wf() == old(gui).wf(),
            final(gui)@ == sort_gui(self.keymap, key, old(gui)@),
            actions_view(r@) == sort_actions(self.keymap, key, ui.sort_ascending),
    {
        let mut r: Vec<InputAction> = Vec::new();
        match classify_sort(&self.keymap, key) {
            SortKey::Redraw => gui.set_clear(),
            SortKey::Sort(h) => r.push(InputAction::Send(CommandMapper::header_to_sort_command(h, ui.sort_ascending))),
            SortKey::Nothing => {},
        }
        proof {
            assert(actions_view(r@) =~= sort_actions(self.keymap, key, ui.sort_ascending));
        }
        r
    }

    /// Go to the start of the selected panel (see `start_effect`).
    pub fn scroll_start_key(&self, gui: &mut GuiState, ui: &mut UIContainerState)
        ensures
            start_effect(old(gui)@, *old(ui), final(gui)@, *final(ui)),
            final(gui).wf() == old(gui).wf(),
    {
        match gui.get_selected_panel() {
            SelectablePanel::Containers => ui.first_container(),
            SelectablePanel::Logs => gui.set_ui_logs_position(0),
            SelectablePanel::Commands => ui.first_docker_command(),
        }
    }

    /// Go to the end of the selected panel (see `end_effect`).
    pub fn scroll_end_key(&self, gui: &mut GuiState, ui: &mut UIContainerState)
        ensures
            end_effect(old(gui)@, *old(ui), final(gui)@, *final(ui)),
            final(gui).wf() == old(gui).wf(),
    {
        match gui.get_selected_panel() {
            SelectablePanel::Containers => ui.last_container(),
            SelectablePanel::Logs => {
                let n = ui.logs.len();
                gui.set_ui_logs_position(n.saturating_sub(1));
            },
            SelectablePanel::Commands => ui.last_docker_command(),
        }
    }

    /// Save the logs, unless a save is running (see `save_gui`): saving is
    /// not available, which the info box says. Asks for the animation timer
    /// when nothing was loading.
    pub fn save_key(&self, gui: &mut GuiState, uuid: u128, now: u64) -> (r: Vec<InputAction>)
        requires
            old(gui).wf(),
        ensures
            final(gui).wf(),
            final(gui)@ == save_gui(old(gui)@, uuid, now),
            actions_view(r@) == save_actions(old(gui)@),
    {
        let mut r: Vec<InputAction> = Vec::new();
        let status = gui.get_status();
        if !status.contains(Status::Logs) {
            gui.status_push(Status::Logs);
            if gui.start_loading_animation(uuid) {
                r.push(InputAction::Animate);
            }
            gui.set_info_box("Log saving not yet implemented with CoreHandle", now);
            gui.status_del(Status::Logs);
            gui.stop_loading_animation(uuid);
        }
        proof {
            assert(actions_view(r@) =~= save_actions(old(gui)@));
        }
        r
    }

    /// Send the selected command to the selected container when the
    /// commands panel is selected; without both, show the error.
    pub fn enter_key(&self, gui: &mut GuiState, ui: &UIContainerState) -> (r: Vec<InputAction>)
        ensures
            final(gui).wf() == old(gui).wf(),
            final(gui)@ == enter_gui(old(gui)@, *ui),
            actions_view(r@) == enter_actions(old(gui)@, *ui),
    {
        let mut r: Vec<InputAction> = Vec::new();
        if gui.get_selected_panel() == SelectablePanel::Commands {
            match (ui.get_selected_container_id(), ui.get_selected_docker_command()) {
                (Some(id), Some(cmd)) => {
                    r.push(InputAction::SendOrFail(CommandMapper::docker_command_to_core(*cmd, &id)));
                },
                _ => gui.status_push(Status::Error),
            }
        }
        proof {
            assert(actions_view(r@) =~= enter_actions(old(gui)@, *ui));
        }
        r
    }

    /// Report the mouse capture switch: the info box says the new state, or
    /// the error shows when the terminal refused; the capture flag flips.
    pub fn mouse_capture_done(&mut self, gui: &mut GuiState, ok: bool, now: u64)
        ensures
            final(self).mouse_capture == !old(self).mouse_capture,
            final(self).keymap == old(self).keymap,
            final(gui).wf() == old(gui).wf(),
            final(gui)@ == if !ok {
                pushed(old(gui)@, Status::Error)
            } else if old(self).mouse_capture {
                info_shown(old(gui)@, "✖ mouse capture disabled"@, now)
            } else {
                info_shown(old(gui)@, "✓ mouse capture enabled"@, now)
            },
    {
        if !ok {
            gui.status_push(Status::Error);
        } else if self.mouse_capture {
            gui.set_info_box("✖ mouse capture disabled", now);
        } else {
            gui.set_info_box("✓ mouse capture enabled", now);
        }
        self.mouse_capture = !self.mouse_capture;
    }

    /// A key in the usual state: first the sorting keys, then the first
    /// binding the key matches (see `others_gui`, `others_state`,
    /// `others_actions`).
    #[verifier::rlimit(50)]
    pub fn handle_others(
        &self,
        gui: &mut GuiState,
        ui: &mut UIContainerState,
        key: KeyCode,
        modifiers: KeyModifiers,
        uuid: u128,
        now: u64,
    ) -> (r: Vec<InputAction>)
        requires
            old(gui).wf(),
        ensures
            final(gui).wf(),
            others_state(self.keymap, key, modifiers, uuid, now, old(gui)@, *old(ui), final(gui)@, *final(ui)),
            actions_view(r@) == others_actions(self.keymap, key, old(gui)@, *old(ui)),
    {
        let mut r = self.handle_sort(gui, ui, key);
        let ghost mid = gui@;
        let ghost sacts = actions_view(r@);
        let c = classify_other(&self.keymap, key);
        match c {
            OtherKey::Exec => r.push(InputAction::Exec),
            OtherKey::Help => gui.status_push(Status::Help),
            OtherKey::MouseCapture => r.push(InputAction::ToggleMouseCapture),
            OtherKey::LogShrink => gui.log_height_decrease(),
            OtherKey::LogGrow => gui.log_height_increase(),
            OtherKey::LogToggle => gui.toggle_show_logs(),
            OtherKey::SaveLogs => {
                let mut s = self.save_key(gui, uuid, now);
                r.append(&mut s);
            },
            OtherKey::NextPanel => gui.selectable_panel_next(),
            OtherKey::PreviousPanel => gui.selectable_panel_previous(),
            OtherKey::ScrollStart => self.scroll_start_key(gui, ui),
            OtherKey::ScrollEnd => self.scroll_end_key(gui, ui),
            OtherKey::UpOne => self.scroll(gui, ui, modifiers, false, 1),
            OtherKey::UpMany => self.scroll(gui, ui, modifiers, false, 7),
            OtherKey::DownOne => self.scroll(gui, ui, modifiers, true, 1),
            OtherKey::DownMany => self.scroll(gui, ui, modifiers, true, 7),
            OtherKey::FilterMode => {
                gui.status_push(Status::Filter);
                r.push(InputAction::Send(CoreCommand::RefreshContainers));
            },
            OtherKey::LogBack | OtherKey::LogForward | OtherKey::Nothing => {},
            OtherKey::Enter => {
                let mut e = self.enter_key(gui, ui);
                r.append(&mut e);
            },
        }
        proof {
            assert(actions_view(r@) =~= others_actions(self.keymap, key, old(gui)@, *old(ui)));
        }
        r
    }

    /// A key press: Ctrl+c, or the quit key outside the filter, quits
    /// at once, whatever the status (an error or the start-up screen
    /// included); then the key
    /// goes to the error, the help, the filter, the delete dialog or the
    /// usual handling, by the status; nothing happens in exec mode.
    pub fn button_press(
        &self,
        gui: &mut GuiState,
        ui: &mut UIContainerState,
        key: KeyCode,
        modifiers: KeyModifiers,
        uuid: u128,
        now: u64,
    ) -> (r: Vec<InputAction>)
        requires
            old(gui).wf(),
        ensures
            final(gui).wf(),
            press_effect(self.keymap, key, modifiers, uuid, now, old(gui)@, *old(ui), final(gui)@, *final(ui), actions_view(r@)),
    {
        let status = gui.get_status();
        if status.contains(Status::Exec) {
            let r: Vec<InputAction> = Vec::new();
            proof {
                assert(actions_view(r@) =~= Seq::<ActionView>::empty());
            }
            return r;
        }
        let mut r: Vec<InputAction> = Vec::new();
        let filtering = status.contains(Status::Filter);
        let quit_key = (modifiers.bits == 2 && key == KeyCode::Char('c')) || (is_bound(self.keymap.quit, key) && !filtering);
        if quit_key {
            r.push(InputAction::Quit);
        }
        let ghost q = actions_view(r@);
        proof {
            assert(q =~= quit_actions(self.keymap, key, modifiers, old(gui)@.status));
        }
        let mut rest = if status.contains(Status::Error) {
            self.handle_error(gui, key);
            Vec::new()
        } else if status.contains(Status::Help) {
            self.handle_help(gui, key)
        } else if filtering {
            self.handle_filter(gui, ui, key)
        } else if status.contains(Status::DeleteConfirm) {
            self.handle_delete(gui, key)
        } else {
            self.handle_others(gui, ui, key, modifiers, uuid, now)
        };
        let ghost rv = actions_view(rest@);
        r.append(&mut rest);
        proof {
            assert(actions_view(r@) =~= q + rv);
            if old(gui)@.status.contains(Status::Error) {
                assert(rv =~= Seq::<ActionView>::empty());
                assert(q + rv =~= q);
            } else if old(gui)@.status.contains(Status::Help) {
            } else if old(gui)@.status.contains(Status::Filter) {
                assert(filter_effect(filter_key(self.keymap, key), old(gui)@, *old(ui), gui@, *ui, rv));
            }
        }
        r
    }

    /// A mouse event: with the delete dialog open, a left click on its
    /// buttons confirms or cancels; with the help open, a click on it
    /// closes it; else the wheel scrolls and a left click sorts by a
    /// header, opens the help, or selects a panel (see `mouse_effect`).
    pub fn mouse_event(
        &self,
        gui: &mut GuiState,
        ui: &mut UIContainerState,
        event: MouseInput,
        modifiers: KeyModifiers,
    ) -> (r: Vec<InputAction>)
        requires
            old(gui).wf(),
        ensures
            final(gui).wf(),
            mouse_effect(self.keymap, event, modifiers, old(gui)@, *old(ui), final(gui)@, *final(ui), actions_view(r@)),
    {
        let mut r: Vec<InputAction> = Vec::new();
        let status = gui.get_status();
        let point = cell(event.column, event.row);
        if status.contains(Status::DeleteConfirm) {
            if event.kind == MouseKind::LeftDown {
                match gui.get_intersect_button(point) {
                    Some(DeleteButton::Confirm) => {
                        r = self.confirm_delete(gui);
                    },
                    Some(DeleteButton::Cancel) => self.clear_delete(gui),
                    None => {},
                }
            }
        } else if status.contains(Status::Help) {
            if gui.get_intersect_help(point) {
                gui.status_del(Status::Help);
            }
        } else {
            match event.kind {
                MouseKind::ScrollUp => self.scroll(gui, ui, modifiers, false, 1),
                MouseKind::ScrollDown => self.scroll(gui, ui, modifiers, true, 1),
                MouseKind::LeftDown => {
                    match gui.get_intersect_header(point) {
                        Some(h) => r.push(InputAction::Send(CommandMapper::header_to_sort_command(h, ui.sort_ascending))),
                        None => {},
                    }
                    if gui.get_intersect_help(point) {
                        gui.status_push(Status::Help);
                    }
                    gui.check_panel_intersect(point);
                },
                MouseKind::Other => {},
            }
        }
        proof {
            assert(actions_view(r@) =~= mouse_actions(event, old(gui)@, *old(ui)));
        }
        r
    }
}

} // verus!

verus! {

/// The selection after `k` moves down (or up) in a list of `len` items.
pub open spec fn sel_steps(sel: Option<usize>, len: nat, down: bool, k: nat) -> Option<usize>
    decreases k,
{
    if k == 0 {
        sel
    } else {
        let s = sel_steps(sel, len, down, (k - 1) as nat);
        if down {
            sel_next(s, len)
        } else {
            sel_prev(s, len)
        }
    }
}

/// What scrolling the selected panel `times` over does (see
/// `InputHandler::scroll`).
pub open spec fn scroll_effect(
    km: Keymap,
    modifiers: KeyModifiers,
    down: bool,
    times: nat,
    g0: GuiView,
    u0: UIContainerState,
    g1: GuiView,
    u1: UIContainerState,
) -> bool {
    let n = scroll_steps(km, modifiers) * times;
    match g0.selected_panel {
        SelectablePanel::Containers => {
            &&& nav_of(&u1) == nav_steps(u0.items(), nav_of(&u0), down, n)
            &&& u1.items() == u0.items()
            &&& (n > 0 ==> u1.logs@.len() == 0)
            &&& (n == 0 ==> u1.logs@ == u0.logs@)
            &&& u1.version_view() == bumped_n(u0.version_view(), n)
            &&& u1.same_settings(&u0)
            &&& u1.rendered_view() == u0.rendered_view()
            &&& g1 == g0
        },
        SelectablePanel::Logs => {
            &&& g1 == logs_steps(g0, u0.logs@.len(), down, n)
            &&& u1 == u0
        },
        SelectablePanel::Commands => {
            &&& u1.docker_commands.items@ == u0.docker_commands.items@
            &&& u1.docker_commands.selected == sel_steps(
                u0.docker_commands.selected,
                u0.docker_commands.items@.len(),
                down,
                times,
            )
            &&& u1.containers == u0.containers
            &&& u1.logs@ == u0.logs@
            &&& u1.version_view() == u0.version_view()
            &&& u1.rendered_view() == u0.rendered_view()
            &&& u1.same_settings(&u0)
            &&& g1 == g0
        },
    }
}

/// The clear key takes the error away.
pub open spec fn error_gui(km: Keymap, key: KeyCode, g: GuiView) -> GuiView {
    if bound_to(km.clear, key) {
        without_status(g, Status::Error)
    } else {
        g
    }
}

/// The clear and help keys close the help.
pub open spec fn help_gui(km: Keymap, key: KeyCode, g: GuiView) -> GuiView {
    if bound_to(km.clear, key) || bound_to(km.toggle_help, key) {
        without_status(g, Status::Help)
    } else {
        g
    }
}

/// The mouse capture key switches the capture, in the help too.
pub open spec fn help_actions(km: Keymap, key: KeyCode) -> Seq<ActionView> {
    if bound_to(km.toggle_mouse_capture, key) {
        seq![ActionView::ToggleMouseCapture]
    } else {
        seq![]
    }
}

/// The request to delete the container waiting for confirmation, if any.
pub open spec fn delete_request(g: GuiView) -> Seq<ActionView> {
    match g.delete_container {
        Some(id) => seq![ActionView::SendOrFail(CoreCommandView::RemoveContainer(id))],
        None => seq![],
    }
}

/// The state with the delete dialog closed: no container waits, its
/// buttons are forgotten, and the status is gone.
pub open spec fn delete_cleared(g: GuiView) -> GuiView {
    without_status(
        GuiView {
            delete_container: None,
            ..without_status(GuiView { delete_areas: crate::gui_state::no_areas(2), ..g }, Status::DeleteConfirm)
        },
        Status::DeleteConfirm,
    )
}

/// The confirm key deletes; the deny and clear keys close the dialog.
pub open spec fn delete_gui(km: Keymap, key: KeyCode, g: GuiView) -> GuiView {
    if bound_to(km.delete_confirm, key) {
        g
    } else if bound_to(km.delete_deny, key) || bound_to(km.clear, key) {
        delete_cleared(g)
    } else {
        g
    }
}

/// The work of a key in the delete dialog.
pub open spec fn delete_actions(km: Keymap, key: KeyCode, g: GuiView) -> Seq<ActionView> {
    if bound_to(km.delete_confirm, key) {
        delete_request(g)
    } else {
        seq![]
    }
}

/// What a key does while filtering.
#[derive(Clone, Copy, Debug, PartialEq, Eq, Structural)]
pub enum FilterKey {
    Clear,
    Apply,
    Back,
    Char(char),
    Next,
    Previous,
    Nothing,
}

/// Esc clears the filter, Enter or the filter key applies it, Backspace
/// and chars edit it, the arrows change the field.
pub open spec fn filter_key(km: Keymap, key: KeyCode) -> FilterKey {
    if key == KeyCode::Esc {
        FilterKey::Clear
    } else if key == KeyCode::Enter || bound_to(km.filter_mode, key) {
        FilterKey::Apply
    } else {
        match key {
            KeyCode::Backspace => FilterKey::Back,
            KeyCode::Char(c) => FilterKey::Char(c),
            KeyCode::Right => FilterKey::Next,
            KeyCode::Left => FilterKey::Previous,
            _ => FilterKey::Nothing,
        }
    }
}

/// The filter command sent for a filter key.
pub open spec fn filter_actions(k: FilterKey, term: Seq<char>) -> Seq<ActionView> {
    match k {
        FilterKey::Clear => seq![ActionView::Send(CoreCommandView::FilterContainers(Seq::empty()))],
        FilterKey::Apply => seq![ActionView::Send(CoreCommandView::FilterContainers(term))],
        _ => seq![],
    }
}

/// What a filter key does to the state and what it sends.
pub open spec fn filter_effect(
    k: FilterKey,
    g0: GuiView,
    u0: UIContainerState,
    g1: GuiView,
    u1: UIContainerState,
    acts: Seq<ActionView>,
) -> bool {
    &&& acts == filter_actions(k, u0.filter_term@)
    &&& g1 == match k {
        FilterKey::Clear | FilterKey::Apply => without_status(g0, Status::Filter),
        _ => g0,
    }
    &&& u1.same_but_filter(&u0)
    &&& u1.filter_term@ == match k {
        FilterKey::Clear => Seq::empty(),
        FilterKey::Back => if u0.filter_term@.len() == 0 {
            u0.filter_term@
        } else {
            u0.filter_term@.drop_last()
        },
        FilterKey::Char(c) => u0.filter_term@.push(c),
        _ => u0.filter_term@,
    }
    &&& u1.filter_by == match k {
        FilterKey::Next => filter_after(u0.filter_by),
        FilterKey::Previous => filter_before(u0.filter_by),
        _ => u0.filter_by,
    }
}

/// The forced-redraw key asks to clear the screen.
pub open spec fn sort_gui(km: Keymap, key: KeyCode, g: GuiView) -> GuiView {
    if sort_key(km, key) == SortKey::Redraw {
        GuiView { clear: true, ..g }
    } else {
        g
    }
}

/// The sort request of a sorting key.
pub open spec fn sort_actions(km: Keymap, key: KeyCode, ascending: bool) -> Seq<ActionView> {
    match sort_key(km, key) {
        SortKey::Sort(h) => seq![
            ActionView::Send(
                CoreCommandView::SortContainers(
                    sort_field(h),
                    if ascending {
                        SortOrder::Ascending
                    } else {
                        SortOrder::Descending
                    },
                ),
            ),
        ],
        _ => seq![],
    }
}

/// What going to the start of the selected panel does: the first
/// container (with its commands), the first log line, or the first command.
pub open spec fn start_effect(g0: GuiView, u0: UIContainerState, g1: GuiView, u1: UIContainerState) -> bool {
    match g0.selected_panel {
        SelectablePanel::Containers => {
            let c = commands_after(u0.items(), Some(0usize), u0.docker_commands.items@, u0.docker_commands.selected);
            &&& nav_of(&u1) == (Some(0usize), c.0, c.1)
            &&& u1.items() == u0.items()
            &&& u1.logs@.len() == 0
            &&& u1.version_view() == bumped(u0.version_view())
            &&& u1.same_settings(&u0)
            &&& u1.rendered_view() == u0.rendered_view()
            &&& g1 == g0
        },
        SelectablePanel::Logs => {
            &&& g1 == GuiView { logs_position: 0, redraw: true, ..g0 }
            &&& u1 == u0
        },
        SelectablePanel::Commands => {
            &&& u1.docker_commands.items@ == u0.docker_commands.items@
            &&& u1.docker_commands.selected == Some(0usize)
            &&& u1.containers == u0.containers
            &&& u1.logs@ == u0.logs@
            &&& u1.version_view() == u0.version_view()
            &&& u1.rendered_view() == u0.rendered_view()
            &&& u1.same_settings(&u0)
            &&& g1 == g0
        },
    }
}

/// What going to the end of the selected panel does: the last container
/// (with its commands), the last log line, or the last command.
pub open spec fn end_effect(g0: GuiView, u0: UIContainerState, g1: GuiView, u1: UIContainerState) -> bool {
    match g0.selected_panel {
        SelectablePanel::Containers => {
            let sel = sel_end(u0.containers.selected, u0.items().len());
            let c = commands_after(u0.items(), sel, u0.docker_commands.items@, u0.docker_commands.selected);
            &&& nav_of(&u1) == (sel, c.0, c.1)
            &&& u1.items() == u0.items()
            &&& u1.logs@.len() == 0
            &&& u1.version_view() == bumped(u0.version_view())
            &&& u1.same_settings(&u0)
            &&& u1.rendered_view() == u0.rendered_view()
            &&& g1 == g0
        },
        SelectablePanel::Logs => {
            &&& g1 == GuiView {
                logs_position: if u0.logs@.len() == 0 {
                    0
                } else {
                    (u0.logs@.len() - 1) as nat
                },
                redraw: true,
                ..g0
            }
            &&& u1 == u0
        },
        SelectablePanel::Commands => {
            &&& u1.docker_commands.items@ == u0.docker_commands.items@
            &&& u1.docker_commands.selected == sel_end(
                u0.docker_commands.selected,
                u0.docker_commands.items@.len(),
            )
            &&& u1.containers == u0.containers
            &&& u1.logs@ == u0.logs@
            &&& u1.version_view() == u0.version_view()
            &&& u1.rendered_view() == u0.rendered_view()
            &&& u1.same_settings(&u0)
            &&& g1 == g0
        },
    }
}

/// The state after saving the logs while no save runs: the save shows as a
/// loading operation that starts and stops, and the info box says that
/// saving is not available.
pub open spec fn save_gui(g: GuiView, uuid: u128, now: u64) -> GuiView {
    if g.status.contains(Status::Logs) {
        g
    } else {
        loading_stopped(
            without_status(
                info_shown(
                    loading_started(pushed(g, Status::Logs), uuid),
                    "Log saving not yet implemented with CoreHandle"@,
                    now,
                ),
                Status::Logs,
            ),
            uuid,
        )
    }
}

/// Saving asks for the animation timer when nothing was loading.
pub open spec fn save_actions(g: GuiView) -> Seq<ActionView> {
    if !g.status.contains(Status::Logs) && !view_is_loading(pushed(g, Status::Logs)) {
        seq![ActionView::Animate]
    } else {
        seq![]
    }
}

/// The selected command, if the selection is on one.
pub open spec fn selected_command(u: UIContainerState) -> Option<DockerCommand> {
    match u.docker_commands.selected {
        Some(i) => if i < u.docker_commands.items@.len() {
            Some(u.docker_commands.items@[i as int])
        } else {
            None
        },
        None => None,
    }
}

/// Enter on the commands panel without a selected container and command
/// shows the error.
pub open spec fn enter_gui(g: GuiView, u: UIContainerState) -> GuiView {
    if g.selected_panel == SelectablePanel::Commands && (selected_id(u.items(), u.containers.selected) is None
        || selected_command(u) is None) {
        pushed(g, Status::Error)
    } else {
        g
    }
}

/// Enter on the commands panel sends the selected command to the selected
/// container.
pub open spec fn enter_actions(g: GuiView, u: UIContainerState) -> Seq<ActionView> {
    if g.selected_panel == SelectablePanel::Commands {
        match (selected_id(u.items(), u.containers.selected), selected_command(u)) {
            (Some(id), Some(cmd)) => seq![ActionView::SendOrFail(command_for(cmd, id))],
            _ => seq![],
        }
    } else {
        seq![]
    }
}

/// The interface state after a key in the usual state, from the state
/// after the sorting keys.
pub open spec fn others_gui(km: Keymap, key: KeyCode, uuid: u128, now: u64, g: GuiView, u: UIContainerState) -> GuiView {
    match other_key(km, key) {
        OtherKey::Help => pushed(g, Status::Help),
        OtherKey::LogShrink => log_shrunk(g),
        OtherKey::LogGrow => log_grown(g),
        OtherKey::LogToggle => logs_toggled(g),
        OtherKey::SaveLogs => save_gui(g, uuid, now),
        OtherKey::NextPanel => panel_forward(g),
        OtherKey::PreviousPanel => panel_backward(g),
        OtherKey::FilterMode => pushed(g, Status::Filter),
        OtherKey::Enter => enter_gui(g, u),
        _ => g,
    }
}

/// What a key does in the usual state: the sorting keys first, then the
/// first binding the key matches.
pub open spec fn others_state(
    km: Keymap,
    key: KeyCode,
    modifiers: KeyModifiers,
    uuid: u128,
    now: u64,
    g0: GuiView,
    u0: UIContainerState,
    g1: GuiView,
    u1: UIContainerState,
) -> bool {
    let mid = sort_gui(km, key, g0);
    match other_key(km, key) {
        OtherKey::ScrollStart => start_effect(mid, u0, g1, u1),
        OtherKey::ScrollEnd => end_effect(mid, u0, g1, u1),
        OtherKey::UpOne => scroll_effect(km, modifiers, false, 1, mid, u0, g1, u1),
        OtherKey::UpMany => scroll_effect(km, modifiers, false, 7, mid, u0, g1, u1),
        OtherKey::DownOne => scroll_effect(km, modifiers, true, 1, mid, u0, g1, u1),
        OtherKey::DownMany => scroll_effect(km, modifiers, true, 7, mid, u0, g1, u1),
        _ => g1 == others_gui(km, key, uuid, now, mid, u0) && u1 == u0,
    }
}

/// The work a key leaves in the usual state: a sort request, then the
/// work of the binding it matches.
pub open spec fn others_actions(km: Keymap, key: KeyCode, g0: GuiView, u0: UIContainerState) -> Seq<ActionView> {
    let mid = sort_gui(km, key, g0);
    sort_actions(km, key, u0.sort_ascending) + match other_key(km, key) {
        OtherKey::Exec => seq![ActionView::Exec],
        OtherKey::MouseCapture => seq![ActionView::ToggleMouseCapture],
        OtherKey::SaveLogs => save_actions(mid),
        OtherKey::FilterMode => seq![ActionView::Send(CoreCommandView::RefreshContainers)],
        OtherKey::Enter => enter_actions(mid, u0),
        _ => seq![],
    }
}

/// Ctrl+c, or the quit key outside the filter, quits at once in every
/// status, an error or the start-up screen included.
pub open spec fn quit_actions(km: Keymap, key: KeyCode, modifiers: KeyModifiers, status: Set<Status>) -> Seq<ActionView> {
    let pressed = (modifiers.bits == 2 && key == KeyCode::Char('c')) || (bound_to(km.quit, key)
        && !status.contains(Status::Filter));
    if pressed {
        seq![ActionView::Quit]
    } else {
        seq![]
    }
}

/// What a key press does (see `InputHandler::button_press`).
pub open spec fn press_effect(
    km: Keymap,
    key: KeyCode,
    modifiers: KeyModifiers,
    uuid: u128,
    now: u64,
    g0: GuiView,
    u0: UIContainerState,
    g1: GuiView,
    u1: UIContainerState,
    acts: Seq<ActionView>,
) -> bool {
    let st = g0.status;
    let q = quit_actions(km, key, modifiers, st);
    if st.contains(Status::Exec) {
        g1 == g0 && u1 == u0 && acts == Seq::<ActionView>::empty()
    } else if st.contains(Status::Error) {
        g1 == error_gui(km, key, g0) && u1 == u0 && acts == q
    } else if st.contains(Status::Help) {
        g1 == help_gui(km, key, g0) && u1 == u0 && acts == q + help_actions(km, key)
    } else if st.contains(Status::Filter) {
        exists|rest: Seq<ActionView>| acts == q + rest && #[trigger] filter_effect(filter_key(km, key), g0, u0, g1, u1, rest)
    } else if st.contains(Status::DeleteConfirm) {
        g1 == delete_gui(km, key, g0) && u1 == u0 && acts == q + delete_actions(km, key, g0)
    } else {
        &&& others_state(km, key, modifiers, uuid, now, g0, u0, g1, u1)
        &&& acts == q + others_actions(km, key, g0, u0)
    }
}

/// The kinds of mouse events the interface reacts to.
#[derive(Clone, Copy, Debug, PartialEq, Eq, Structural)]
pub enum MouseKind {
    ScrollUp,
    ScrollDown,
    LeftDown,
    Other,
}

/// A mouse event at a cell of the terminal.
#[derive(Clone, Copy, Debug, PartialEq, Eq, Structural)]
pub struct MouseInput {
    pub kind: MouseKind,
    pub column: u16,
    pub row: u16,
}

/// The cell of a mouse event.
pub open spec fn event_cell(e: MouseInput) -> crate::layout::Rect {
    clamped_rect(e.column, e.row, 1, 1)
}

/// Whether a click on `e` hits the help.
pub open spec fn hits_help(g: GuiView, e: MouseInput) -> bool {
    g.help_area is Some && overlaps(g.help_area->0, event_cell(e))
}

/// The work a mouse event leaves: confirming a deletion, or sorting by a
/// clicked header.
pub open spec fn mouse_actions(e: MouseInput, g: GuiView, u: UIContainerState) -> Seq<ActionView> {
    if g.status.contains(Status::DeleteConfirm) {
        if e.kind == MouseKind::LeftDown && first_hit(g.delete_areas, event_cell(e)) == Some(0int) {
            delete_request(g)
        } else {
            seq![]
        }
    } else if g.status.contains(Status::Help) {
        seq![]
    } else if e.kind == MouseKind::LeftDown {
        match first_hit(g.header_areas, event_cell(e)) {
            Some(i) => seq![
                ActionView::Send(
                    CoreCommandView::SortContainers(
                        sort_field(header_at(i)),
                        if u.sort_ascending {
                            SortOrder::Ascending
                        } else {
                            SortOrder::Descending
                        },
                    ),
                ),
            ],
            None => seq![],
        }
    } else {
        seq![]
    }
}

/// The state after a left click outside the dialogs: the help opens when
/// hit, and a hit panel is selected.
pub open spec fn clicked(g: GuiView, e: MouseInput) -> GuiView {
    let h = if hits_help(g, e) {
        pushed(g, Status::Help)
    } else {
        g
    };
    match first_hit(h.panel_areas, event_cell(e)) {
        Some(i) => GuiView { selected_panel: panel_at(i), redraw: true, ..h },
        None => h,
    }
}

/// What a mouse event does (see `InputHandler::mouse_event`).
pub open spec fn mouse_effect(
    km: Keymap,
    e: MouseInput,
    modifiers: KeyModifiers,
    g0: GuiView,
    u0: UIContainerState,
    g1: GuiView,
    u1: UIContainerState,
    acts: Seq<ActionView>,
) -> bool {
    &&& acts == mouse_actions(e, g0, u0)
    &&& if g0.status.contains(Status::DeleteConfirm) {
        &&& u1 == u0
        &&& g1 == if e.kind == MouseKind::LeftDown && first_hit(g0.delete_areas, event_cell(e)) is Some
            && first_hit(g0.delete_areas, event_cell(e)) != Some(0int) {
            delete_cleared(g0)
        } else {
            g0
        }
    } else if g0.status.contains(Status::Help) {
        &&& u1 == u0
        &&& g1 == if hits_help(g0, e) {
            without_status(g0, Status::Help)
        } else {
            g0
        }
    } else {
        match e.kind {
            MouseKind::ScrollUp => scroll_effect(km, modifiers, false, 1, g0, u0, g1, u1),
            MouseKind::ScrollDown => scroll_effect(km, modifiers, true, 1, g0, u0, g1, u1),
            MouseKind::LeftDown => g1 == clicked(g0, e) && u1 == u0,
            MouseKind::Other => g1 == g0 && u1 == u0,
        }
    }
}


/// The Docker command a core command carries out on a container, if any.
pub open spec fn carried_out(c: CoreCommandView) -> Option<DockerCommand> {
    match c {
        CoreCommandView::StartContainer(_) => Some(DockerCommand::Start),
        CoreCommandView::StopContainer(_) => Some(DockerCommand::Stop),
        CoreCommandView::PauseContainer(_) => Some(DockerCommand::Pause),
        CoreCommandView::UnpauseContainer(_) => Some(DockerCommand::Resume),
        CoreCommandView::RestartContainer(_) => Some(DockerCommand::Restart),
        CoreCommandView::RemoveContainer(_) => Some(DockerCommand::Delete),
        _ => None,
    }
}

/// The container a core command acts on, if any.
pub open spec fn target_of(c: CoreCommandView) -> Option<Seq<char>> {
    match c {
        CoreCommandView::StartContainer(id) => Some(id),
        CoreCommandView::StopContainer(id) => Some(id),
        CoreCommandView::PauseContainer(id) => Some(id),
        CoreCommandView::UnpauseContainer(id) => Some(id),
        CoreCommandView::RestartContainer(id) => Some(id),
        CoreCommandView::RemoveContainer(id) => Some(id),
        CoreCommandView::RefreshLogs(id) => Some(id),
        _ => None,
    }
}

/// The core command sent for a Docker command carries out that same
/// command on that container; so different commands, or different
/// containers, give different core commands.
pub proof fn law_command_same_verb(command: DockerCommand, other: DockerCommand, id: Seq<char>, other_id: Seq<char>)
    ensures
        carried_out(command_for(command, id)) == Some(command),
        target_of(command_for(command, id)) == Some(id),
        (command != other || id != other_id) ==> command_for(command, id) != command_for(other, other_id),
{
    if command_for(command, id) == command_for(other, other_id) {
        assert(carried_out(command_for(other, other_id)) == Some(other));
        assert(target_of(command_for(other, other_id)) == Some(other_id));
    }
}

/// The column a sort field sorts by.
pub open spec fn sorted_column(f: SortField) -> Header {
    match f {
        SortField::Name => Header::Name,
        SortField::State => Header::State,
        SortField::Status => Header::Status,
        SortField::Cpu => Header::Cpu,
        SortField::Memory => Header::Memory,
        SortField::Id => Header::Id,
        SortField::Image => Header::Image,
        SortField::NetworkRx => Header::Rx,
        SortField::NetworkTx => Header::Tx,
    }
}

/// The field sent to sort by a column names that same column, so
/// different columns sort by different fields.
pub proof fn law_sort_field_names_column(h: Header, other: Header)
    ensures
        sorted_column(sort_field(h)) == h,
        h != other ==> sort_field(h) != sort_field(other),
{
    if sort_field(h) == sort_field(other) {
        assert(sorted_column(sort_field(other)) == other);
    }
}

} // verus!
