//! The panels of the interface: what each one shows, and where its parts
//! and clickable areas go. Drawing the cells is left to the terminal layer.
use vstd::prelude::*;
use std::collections::VecDeque;
use crate::clock::system_time_ms;
use crate::constants::{max_line_width, spec_max_line_width};
use crate::fmt::{decimal, pad_left, pad_right, push_char, push_decimal, push_padded_left, push_padded_right, push_str, push_zero_padded, zero_padded};
use crate::gui_state::{with_region, ConfirmationButton, DeleteButton, GuiState, GuiView, Region};
use crate::keys::{delete_key_text, format_delete_key_text, format_hint_key_text, hint_key_text};
use crate::layout::{centered, centered_rect, split_area, Constraint, Direction, Rect};
use crate::model::{command_label, header_label, ports_view, state_label, Columns, ContainerPorts, CoreCommand, DockerCommand, FilterBy, Header, KeyBinding, PortView, SortedOrder, State};
use crate::text::{byte_len, chars_of, find_from, first_occurrence, lemma_occurrence_in_bounds, line_widths, line_widths_of, string_of, text_byte_len};
use crate::view_models::{ContainerView, RowView};

verus! {

/// A component that keeps state of its own: it makes its properties from
/// a state, and takes in a new state.
pub trait StatefulComponent {
    /// The state the component is made from.
    type State;
    /// What the component draws from.
    type Props;

    /// The properties for `state`.
    fn view(&self, state: &Self::State) -> Self::Props;

    /// Take in a new state.
    fn update(&mut self, state: &Self::State);
}

/// CPU and memory charts of the selected container.
pub struct ChartsPanel {}

impl ChartsPanel {
    pub fn new() -> (p: Self) {
        ChartsPanel {}
    }
}

/// The two charts.
#[derive(Clone, Copy, Debug, PartialEq, Eq, Structural)]
pub enum ChartVariant {
    Cpu,
    Memory,
}

impl ChartVariant {
    /// The chart's name, as its title shows it.
    pub fn name(self) -> (s: &'static str)
        ensures
            s@ == match self {
                ChartVariant::Cpu => "cpu"@,
                ChartVariant::Memory => "memory"@,
            },
    {
        match self {
            ChartVariant::Cpu => "cpu",
            ChartVariant::Memory => "memory",
        }
    }
}

/// The commands that can be sent to the selected container.
pub struct CommandsPanel {}

impl CommandsPanel {
    pub fn new() -> (p: Self) {
        CommandsPanel {}
    }
}

/// Events that can be handled by the commands panel.
#[derive(Clone, Copy, Debug, PartialEq, Eq, Structural)]
pub enum CommandEvent {
    ExecuteCommand(usize),
    NextCommand,
    PreviousCommand,
}

/// The list of containers.
pub struct ContainersPanel {}

impl ContainersPanel {
    pub fn new() -> (p: Self) {
        ContainersPanel {}
    }
}

/// Events that can be handled by the containers panel.
#[derive(Clone, Copy, Debug, PartialEq, Eq, Structural)]
pub enum ContainerEvent {
    SelectContainer(usize),
    NextContainer,
    PreviousContainer,
}

/// The filter bar.
pub struct FilterPanel {}

impl FilterPanel {
    pub fn new() -> (p: Self) {
        FilterPanel {}
    }
}

/// The logs of the selected container.
pub struct LogsPanel {}

impl LogsPanel {
    pub fn new() -> (p: Self) {
        LogsPanel {}
    }

    /// The logs panel scrolls through the interface state; it sends nothing
    /// to the core for any of its events.
    pub fn handle_event(&mut self, event: &LogEvent) -> (r: Option<CoreCommand>)
        ensures
            r is None,
    {
        match event {
            LogEvent::ScrollUp | LogEvent::ScrollDown | LogEvent::ScrollToTop | LogEvent::ScrollToBottom
            | LogEvent::PageUp | LogEvent::PageDown => None,
        }
    }

    /// What the panel shows: a message while the logs are parsed or loaded
    /// or when there are none, else the lines with the line at `position`
    /// selected (when there is one) and a scroll padding of a fifth of the
    /// area's height (see `logs_content`).
    pub fn content(init: bool, loading: bool, total: usize, position: usize, icon: &str, height: u16) -> (c: LogsContent)
        ensures
            logs_content(c, init, loading, total as nat, position as nat, icon@, height as nat),
    {
        if init {
            let mut s = String::new();
            push_str(&mut s, "parsing logs ");
            push_str(&mut s, icon);
            LogsContent::Message(s)
        } else if loading {
            let mut s = String::new();
            push_str(&mut s, "loading logs ");
            push_str(&mut s, icon);
            LogsContent::Message(s)
        } else if total == 0 {
            let mut s = String::new();
            push_str(&mut s, "no logs found");
            LogsContent::Message(s)
        } else {
            let selected = if position < total {
                Some(position)
            } else {
                None
            };
            LogsContent::Lines { selected, padding: (height / 5) as usize }
        }
    }
}

/// What the logs panel shows.
#[derive(Debug)]
pub enum LogsContent {
    /// A centred message.
    Message(String),
    /// The log lines, the selected one, and the scroll padding in lines.
    Lines { selected: Option<usize>, padding: usize },
}

/// The content of the logs panel (see `LogsPanel::content`).
pub open spec fn logs_content(
    c: LogsContent,
    init: bool,
    loading: bool,
    total: nat,
    position: nat,
    icon: Seq<char>,
    height: nat,
) -> bool {
    if init {
        c matches LogsContent::Message(s) && s@ == "parsing logs "@ + icon
    } else if loading {
        c matches LogsContent::Message(s) && s@ == "loading logs "@ + icon
    } else if total == 0 {
        c matches LogsContent::Message(s) && s@ == "no logs found"@
    } else {
        c matches LogsContent::Lines { selected, padding } && padding == height / 5 && selected == if position
            < total {
            Some(position as usize)
        } else {
            None
        }
    }
}

/// Events that can be handled by the logs panel.
#[derive(Clone, Copy, Debug, PartialEq, Eq, Structural)]
pub enum LogEvent {
    ScrollUp,
    ScrollDown,
    ScrollToTop,
    ScrollToBottom,
    PageUp,
    PageDown,
}

/// The ports of the selected container.
pub struct PortsPanel {}

impl PortsPanel {
    pub fn new() -> (p: Self) {
        PortsPanel {}
    }
}

/// The help overlay.
pub struct HelpPanel {}

impl HelpPanel {
    pub fn new() -> (p: Self) {
        HelpPanel {}
    }
}

/// The column headers, with the help hint at the right.
pub struct HeadersPanel {}

/// Events that can be handled by the headers panel.
#[derive(Clone, Copy, Debug, PartialEq, Eq, Structural)]
pub enum HeaderEvent {
    ToggleHelp,
    SortBy(Header),
}

/// Space after each column of the container list.
pub const MARGIN: &'static str = "  ";

/// Space after each column header and after the help hint.
pub const HEADER_MARGIN: &'static str = " ";

/// The help hint at the right of the header bar: `( h ) show help` with the
/// default binding, else the binding's keys; "exit" while help is shown.
pub open spec fn help_hint(binding: KeyBinding, default_binding: KeyBinding, help_shown: bool) -> Seq<char> {
    let suffix = if help_shown {
        "exit"@
    } else {
        "show"@
    };
    if binding == default_binding {
        "( h ) "@ + suffix + " help"@ + " "@
    } else {
        hint_key_text(binding, suffix + " help"@ + " "@)
    }
}

impl HeadersPanel {
    pub fn new() -> (p: Self) {
        HeadersPanel {}
    }

    /// The help toggle is handled by the interface state and a click on a
    /// header by the input handler; the panel sends nothing to the core.
    pub fn handle_event(&mut self, event: &HeaderEvent) -> (r: Option<CoreCommand>)
        ensures
            r is None,
    {
        match event {
            HeaderEvent::ToggleHelp => None,
            HeaderEvent::SortBy(_) => None,
        }
    }

    /// The help hint for the toggle-help `binding` (see `help_hint`).
    pub fn gen_help_text(binding: KeyBinding, default_binding: KeyBinding, help_shown: bool) -> (s: String)
        ensures
            s@ == help_hint(binding, default_binding, help_shown),
    {
        let suffix = if help_shown {
            "exit"
        } else {
            "show"
        };
        let mut tail = String::new();
        push_str(&mut tail, suffix);
        push_str(&mut tail, " help");
        push_str(&mut tail, HEADER_MARGIN);
        proof {
            reveal_strlit(" ");
        }
        if binding == default_binding {
            let mut s = String::new();
            push_str(&mut s, "( h ) ");
            push_str(&mut s, tail.as_str());
            proof {
                assert(s@ =~= help_hint(binding, default_binding, help_shown));
            }
            s
        } else {
            let s = format_hint_key_text(binding, tail.as_str());
            proof {
                assert(tail@ =~= (if help_shown { "exit"@ } else { "show"@ }) + " help"@ + " "@);
            }
            s
        }
    }
}

/// A confirmation question before a command is sent.
pub struct ConfirmationModal {}

/// Events that can be handled by the confirmation modal.
#[derive(Clone, Copy, Debug, PartialEq, Eq, Structural)]
pub enum ConfirmationEvent {
    Confirm(DockerCommand),
    Cancel,
}

/// The title of the confirmation for `command`.
pub open spec fn confirm_title(command: DockerCommand) -> Seq<char> {
    match command {
        DockerCommand::Stop => " Confirm Stop "@,
        DockerCommand::Restart => " Confirm Restart "@,
        DockerCommand::Pause => " Confirm Pause "@,
        DockerCommand::Resume => " Confirm Resume "@,
        DockerCommand::Start => " Confirm Start "@,
        DockerCommand::Delete => " Confirm Delete "@,
    }
}

/// The confirmation question for `command` on the container `name`.
pub open spec fn confirm_question(command: DockerCommand, name: Seq<char>) -> Seq<char> {
    "Are you sure you want to "@ + command_label(command) + " container: "@ + name + "?"@
}

/// A length in bytes as a dialog width, or `fallback` when it does not fit.
pub open spec fn width_or(len: nat, fallback: nat) -> nat {
    if len <= u16::MAX {
        len
    } else {
        fallback
    }
}

/// `a + b`, saturating at `u16::MAX`.
pub open spec fn sat_add(a: nat, b: nat) -> nat {
    if a + b > u16::MAX {
        u16::MAX as nat
    } else {
        a + b
    }
}

/// The size of the confirmation dialog: the question's length in bytes plus
/// six, at least 60 wide; 12 high.
pub open spec fn confirm_size(command: DockerCommand, name: Seq<char>) -> (u16, u16) {
    let w = sat_add(width_or(byte_len(confirm_question(command, name)), 60), 6);
    ((if w < 60 {
        60
    } else {
        w
    }) as u16, 12)
}

/// Rows of the confirmation dialog: padding, question, space, buttons, gap,
/// key hints, space, padding.
pub open spec fn confirm_rows() -> Seq<Constraint> {
    seq![
        Constraint::Length(2),
        Constraint::Length(1),
        Constraint::Length(1),
        Constraint::Length(3),
        Constraint::Length(1),
        Constraint::Length(1),
        Constraint::Length(1),
        Constraint::Length(1),
    ]
}

/// Columns of a dialog's button row: padding, a button, space, a button,
/// padding.
pub open spec fn button_columns() -> Seq<Constraint> {
    seq![
        Constraint::Percentage(10),
        Constraint::Percentage(30),
        Constraint::Percentage(20),
        Constraint::Percentage(30),
        Constraint::Percentage(10),
    ]
}

fn button_column_constraints() -> (v: Vec<Constraint>)
    ensures
        v@ == button_columns(),
{
    let v = vec![
        Constraint::Percentage(10),
        Constraint::Percentage(30),
        Constraint::Percentage(20),
        Constraint::Percentage(30),
        Constraint::Percentage(10),
    ];
    proof {
        assert(v@ =~= button_columns());
    }
    v
}

/// Where the parts of a confirmation dialog go.
#[derive(Clone, Copy, Debug)]
pub struct ConfirmationAreas {
    pub dialog: Rect,
    pub question: Rect,
    pub cancel: Rect,
    pub confirm: Rect,
    pub keys: Rect,
}

impl ConfirmationModal {
    pub fn new() -> (p: Self) {
        ConfirmationModal {}
    }

    /// The dialog's title for `command`.
    pub fn get_title(command: DockerCommand) -> (s: &'static str)
        ensures
            s@ == confirm_title(command),
    {
        match command {
            DockerCommand::Stop => " Confirm Stop ",
            DockerCommand::Restart => " Confirm Restart ",
            DockerCommand::Pause => " Confirm Pause ",
            DockerCommand::Resume => " Confirm Resume ",
            DockerCommand::Start => " Confirm Start ",
            DockerCommand::Delete => " Confirm Delete ",
        }
    }

    /// The question the dialog asks.
    pub fn question(command: DockerCommand, container_name: &str) -> (s: String)
        ensures
            s@ == confirm_question(command, container_name@),
    {
        let mut s = String::new();
        push_str(&mut s, "Are you sure you want to ");
        push_str(&mut s, command.label());
        push_str(&mut s, " container: ");
        push_str(&mut s, container_name);
        push_str(&mut s, "?");
        proof {
            assert(s@ =~= confirm_question(command, container_name@));
        }
        s
    }

    /// The size of the dialog (see `confirm_size`).
    pub fn calculate_size(command: DockerCommand, container_name: &str) -> (r: (u16, u16))
        ensures
            r == confirm_size(command, container_name@),
    {
        let q = Self::question(command, container_name);
        let len = text_byte_len(q.as_str());
        let base: u16 = if len <= 65535 {
            len as u16
        } else {
            60
        };
        let w = base.saturating_add(6);
        let width = if w < 60 {
            60
        } else {
            w
        };
        (width, 12)
    }

    /// Place the dialog centred in `area`, split it into its rows and the
    /// button row into its columns, and record the two buttons as the
    /// clickable areas of the confirmation.
    /// `area` must end within the screen's coordinates, as every rectangle
    /// that `Rect::new` makes does (it clamps the size so); a `Rect` built
    /// field by field may not.
    pub fn layout(
        &self,
        command: DockerCommand,
        container_name: &str,
        area: Rect,
        gui: &mut GuiState,
    ) -> (a: ConfirmationAreas)
        requires
            area.x + area.width <= u16::MAX,
            area.y + area.height <= u16::MAX,
            old(gui).wf(),
        ensures
            ({
                let size = confirm_size(command, container_name@);
                &&& a.dialog == centered_rect(area, size.0, size.1)
                &&& exists|rows: Seq<Rect>, buttons: Seq<Rect>|
                    rows.len() == confirm_rows().len() && buttons.len() == button_columns().len()
                        && #[trigger] confirm_parts(a.dialog, rows, buttons, old(gui)@, final(gui)@, a)
            }),
            final(gui).wf(),
    {
        let (width, height) = Self::calculate_size(command, container_name);
        let dialog = centered(area, width, height);
        let rows_c = vec![
            Constraint::Length(2),
            Constraint::Length(1),
            Constraint::Length(1),
            Constraint::Length(3),
            Constraint::Length(1),
            Constraint::Length(1),
            Constraint::Length(1),
            Constraint::Length(1),
        ];
        proof {
            assert(rows_c@ =~= confirm_rows());
        }
        let rows = split_area(dialog, Direction::Vertical, 0, &rows_c);
        let buttons = split_area(rows[3], Direction::Horizontal, 0, &button_column_constraints());
        let ghost g0 = gui@;
        let a = Self::areas_from_parts(dialog, &rows, &buttons, gui);
        proof {
            assert(confirm_parts(dialog, rows@, buttons@, g0, gui@, a));
        }
        a
    }

    /// The parts of the dialog from the splits of its rows and of its button
    /// row (see `confirm_parts`), recording the two buttons as the clickable
    /// areas of the confirmation.
    pub fn areas_from_parts(dialog: Rect, rows: &Vec<Rect>, buttons: &Vec<Rect>, gui: &mut GuiState) -> (a: ConfirmationAreas)
        requires
            rows@.len() == confirm_rows().len(),
            buttons@.len() == button_columns().len(),
            old(gui).wf(),
        ensures
            confirm_parts(dialog, rows@, buttons@, old(gui)@, final(gui)@, a),
            final(gui).wf(),
    {
        gui.update_region_map(Region::ConfirmationModal(ConfirmationButton::Cancel), buttons[1]);
        gui.update_region_map(Region::ConfirmationModal(ConfirmationButton::Confirm), buttons[3]);
        ConfirmationAreas {
            dialog,
            question: rows[1],
            cancel: buttons[1],
            confirm: buttons[3],
            keys: rows[5],
        }
    }
}

/// The confirmation's parts from the rows of the dialog and the columns of
/// its button row: the question in the second row, the keys in the sixth,
/// the cancel and confirm buttons in the second and fourth columns, and
/// these two buttons recorded as clickable.
pub open spec fn confirm_parts(
    dialog: Rect,
    rows: Seq<Rect>,
    buttons: Seq<Rect>,
    g0: GuiView,
    g1: GuiView,
    a: ConfirmationAreas,
) -> bool {
    &&& a.dialog == dialog
    &&& a.question == rows[1]
    &&& a.keys == rows[5]
    &&& a.cancel == buttons[1]
    &&& a.confirm == buttons[3]
    &&& g1 == with_region(
        with_region(g0, Region::ConfirmationModal(ConfirmationButton::Cancel), buttons[1]),
        Region::ConfirmationModal(ConfirmationButton::Confirm),
        buttons[3],
    )
}

impl Default for ConfirmationModal {
    fn default() -> (p: Self) {
        Self::new()
    }
}

/// The delete confirmation dialog.
pub struct DeleteConfirmPanel {}

/// Events that can be handled by the delete confirmation panel.
#[derive(Clone, Copy, Debug, PartialEq, Eq, Structural)]
pub enum DeleteConfirmEvent {
    ConfirmDelete,
    CancelDelete,
}

/// The delete question for the container `name`.
pub open spec fn delete_question(name: Seq<char>) -> Seq<char> {
    "Are you sure you want to delete container: "@ + name
}

/// The size of the delete dialog: the question's length in bytes plus 12
/// (64 when the length does not fit), 8 high.
pub open spec fn delete_size(name: Seq<char>) -> (u16, u16) {
    (sat_add(width_or(byte_len(delete_question(name)), 64), 12) as u16, 8)
}

/// Rows of the delete dialog: padding, question, space, buttons, padding.
pub open spec fn delete_rows() -> Seq<Constraint> {
    seq![
        Constraint::Length(1),
        Constraint::Length(1),
        Constraint::Length(1),
        Constraint::Length(3),
        Constraint::Length(1),
    ]
}

/// A button's text: the plain text when the binding is the default one,
/// else the binding's keys (see `delete_key_text`).
pub open spec fn button_text(binding: KeyBinding, default_binding: KeyBinding, plain: Seq<char>, text: Seq<char>) -> Seq<char> {
    if binding == default_binding {
        plain
    } else {
        delete_key_text(binding, text)
    }
}

/// Where the parts of the delete dialog go.
#[derive(Clone, Copy, Debug)]
pub struct DeleteAreas {
    pub dialog: Rect,
    pub question: Rect,
    pub no: Rect,
    pub yes: Rect,
}

impl DeleteConfirmPanel {
    pub fn new() -> (p: Self) {
        DeleteConfirmPanel {}
    }

    /// The dialog's question.
    pub fn question(container_name: &str) -> (s: String)
        ensures
            s@ == delete_question(container_name@),
    {
        let mut s = String::new();
        push_str(&mut s, "Are you sure you want to delete container: ");
        push_str(&mut s, container_name);
        s
    }

    /// The size of the dialog (see `delete_size`).
    pub fn calculate_size(container_name: &str) -> (r: (u16, u16))
        ensures
            r == delete_size(container_name@),
    {
        let q = Self::question(container_name);
        let len = text_byte_len(q.as_str());
        let base: u16 = if len <= 65535 {
            len as u16
        } else {
            64
        };
        (base.saturating_add(12), 8)
    }

    /// The text of the confirm button for the delete-confirm binding.
    pub fn yes_text(binding: KeyBinding, default_binding: KeyBinding) -> (s: String)
        ensures
            s@ == button_text(binding, default_binding, "( y ) yes"@, "yes"@),
    {
        if binding == default_binding {
            let mut s = String::new();
            push_str(&mut s, "( y ) yes");
            s
        } else {
            format_delete_key_text(binding, "yes")
        }
    }

    /// The text of the cancel button for the delete-deny binding.
    pub fn no_text(binding: KeyBinding, default_binding: KeyBinding) -> (s: String)
        ensures
            s@ == button_text(binding, default_binding, "( n ) no"@, "no"@),
    {
        if binding == default_binding {
            let mut s = String::new();
            push_str(&mut s, "( n ) no");
            s
        } else {
            format_delete_key_text(binding, "no")
        }
    }

    /// Place the dialog centred in `area`, split it, and record the two
    /// buttons as the clickable areas of the delete dialog.
    /// `area` must end within the screen's coordinates, as every rectangle
    /// that `Rect::new` makes does (it clamps the size so); a `Rect` built
    /// field by field may not.
    pub fn layout(&self, container_name: &str, area: Rect, gui: &mut GuiState) -> (a: DeleteAreas)
        requires
            area.x + area.width <= u16::MAX,
            area.y + area.height <= u16::MAX,
            old(gui).wf(),
        ensures
            ({
                let size = delete_size(container_name@);
                &&& a.dialog == centered_rect(area, size.0, size.1)
                &&& exists|rows: Seq<Rect>, buttons: Seq<Rect>|
                    rows.len() == delete_rows().len() && buttons.len() == button_columns().len()
                        && #[trigger] delete_parts(a.dialog, rows, buttons, old(gui)@, final(gui)@, a)
            }),
            final(gui).wf(),
    {
        let (width, height) = Self::calculate_size(container_name);
        let dialog = centered(area, width, height);
        let rows_c = vec![
            Constraint::Length(1),
            Constraint::Length(1),
            Constraint::Length(1),
            Constraint::Length(3),
            Constraint::Length(1),
        ];
        proof {
            assert(rows_c@ =~= delete_rows());
        }
        let rows = split_area(dialog, Direction::Vertical, 0, &rows_c);
        let buttons = split_area(rows[3], Direction::Horizontal, 0, &button_column_constraints());
        let ghost g0 = gui@;
        let a = Self::areas_from_parts(dialog, &rows, &buttons, gui);
        proof {
            assert(delete_parts(dialog, rows@, buttons@, g0, gui@, a));
        }
        a
    }

    /// The parts of the dialog from the splits of its rows and of its button
    /// row (see `delete_parts`), recording the two buttons as the clickable
    /// areas of the delete dialog.
    pub fn areas_from_parts(dialog: Rect, rows: &Vec<Rect>, buttons: &Vec<Rect>, gui: &mut GuiState) -> (a: DeleteAreas)
        requires
            rows@.len() == delete_rows().len(),
            buttons@.len() == button_columns().len(),
            old(gui).wf(),
        ensures
            delete_parts(dialog, rows@, buttons@, old(gui)@, final(gui)@, a),
            final(gui).wf(),
    {
        gui.update_region_map(Region::Delete(DeleteButton::Cancel), buttons[1]);
        gui.update_region_map(Region::Delete(DeleteButton::Confirm), buttons[3]);
        DeleteAreas { dialog, question: rows[1], no: buttons[1], yes: buttons[3] }
    }
}

/// The delete dialog's parts from the rows of the dialog and the columns of
/// its button row: the question in the second row, the no and yes buttons
/// in the second and fourth columns, and these two buttons recorded as
/// clickable.
pub open spec fn delete_parts(
    dialog: Rect,
    rows: Seq<Rect>,
    buttons: Seq<Rect>,
    g0: GuiView,
    g1: GuiView,
    a: DeleteAreas,
) -> bool {
    &&& a.dialog == dialog
    &&& a.question == rows[1]
    &&& a.no == buttons[1]
    &&& a.yes == buttons[3]
    &&& g1 == with_region(
        with_region(g0, Region::Delete(DeleteButton::Cancel), buttons[1]),
        Region::Delete(DeleteButton::Confirm),
        buttons[3],
    )
}

impl Default for DeleteConfirmPanel {
    fn default() -> (p: Self) {
        Self::new()
    }
}

/// The text of a port row's column `s`, right-aligned in `width` cells.
pub open spec fn port_cell(s: Seq<char>, width: nat) -> Seq<char> {
    pad_left(s, width, ' ')
}

/// A row of the ports panel: ip, private and public port, right-aligned,
/// the ip column `ip_width` wide and the port columns 7 wide.
pub open spec fn port_row(ip: Seq<char>, private: Seq<char>, public: Seq<char>, ip_width: nat) -> Seq<char> {
    port_cell(ip, ip_width) + "   "@ + port_cell(private, 7) + "  "@ + port_cell(public, 7)
}

/// The texts of a port's columns: its ip (empty without one), its private
/// port, and its public port (empty when not published).
pub open spec fn port_texts(p: PortView) -> (Seq<char>, Seq<char>, Seq<char>) {
    (
        match p.ip {
            Some(t) => t,
            None => Seq::<char>::empty(),
        },
        decimal(p.private as nat),
        match p.public {
            Some(x) => decimal(x as nat),
            None => Seq::<char>::empty(),
        },
    )
}

/// The lines of the ports panel: the heading, then one row per port, with
/// the ip column as wide as `ip_column_width` gives for `ip_len`.
pub open spec fn port_lines_of(ports: Seq<PortView>, ip_len: nat) -> Seq<Seq<char>> {
    let w = ip_column_width(ip_len);
    seq![port_row("ip"@, "private"@, "public"@, w)] + ports.map_values(
        |p: PortView| port_row(port_texts(p).0, port_texts(p).1, port_texts(p).2, w),
    )
}

/// The width of the ip column: the longest ip, kept between 2 and 16.
pub open spec fn ip_column_width(ip_len: nat) -> nat {
    if ip_len < 2 {
        2
    } else if ip_len > 16 {
        16
    } else {
        ip_len
    }
}

/// What the ports panel shows when the container has no ports: "no ports"
/// for a container that is up, else nothing.
pub open spec fn no_ports_text(state: State) -> Seq<char> {
    match state {
        State::Running(_) | State::Paused | State::Restarting => "no ports"@,
        _ => ""@,
    }
}

impl PortsPanel {
    /// The ip column width for the longest ip (see `ip_column_width`).
    pub fn ip_width(ip_len: usize) -> (w: usize)
        ensures
            w == ip_column_width(ip_len as nat),
    {
        if ip_len < 2 {
            2
        } else if ip_len > 16 {
            16
        } else {
            ip_len
        }
    }

    /// A row of the ports panel (see `port_row`).
    pub fn row(ip: &str, private: &str, public: &str, ip_width: usize) -> (s: String)
        ensures
            s@ == port_row(ip@, private@, public@, ip_width as nat),
    {
        let mut s = String::new();
        push_padded_left(&mut s, ip, ip_width);
        push_str(&mut s, "   ");
        push_padded_left(&mut s, private, 7);
        push_str(&mut s, "  ");
        push_padded_left(&mut s, public, 7);
        proof {
            assert(s@ =~= port_row(ip@, private@, public@, ip_width as nat));
        }
        s
    }

    /// The heading row of the ports panel.
    pub fn heading(ip_width: usize) -> (s: String)
        ensures
            s@ == port_row("ip"@, "private"@, "public"@, ip_width as nat),
    {
        Self::row("ip", "private", "public", ip_width)
    }

    /// The lines of the ports panel for ports whose longest ip is `ip_len`
    /// long: the heading, then a row for each port (see `port_lines_of`).
    pub fn port_lines(ports: &Vec<ContainerPorts>, ip_len: usize) -> (v: Vec<String>)
        ensures
            v@.map_values(|s: String| s@) == port_lines_of(ports_view(ports@), ip_len as nat),
    {
        let w = Self::ip_width(ip_len);
        let mut v: Vec<String> = Vec::new();
        v.push(Self::heading(w));
        let mut i: usize = 0;
        while i < ports.len()
            invariant
                i <= ports@.len(),
                w == ip_column_width(ip_len as nat),
                v@.map_values(|s: String| s@) == port_lines_of(ports_view(ports@.take(i as int)), ip_len as nat),
            decreases ports@.len() - i,
        {
            let p = &ports[i];
            let mut ip = String::new();
            match &p.ip {
                Some(t) => push_str(&mut ip, t.as_str()),
                None => {},
            }
            let mut private = String::new();
            push_decimal(&mut private, p.private as u64);
            let mut public = String::new();
            match p.public {
                Some(x) => push_decimal(&mut public, x as u64),
                None => {},
            }
            let line = Self::row(ip.as_str(), private.as_str(), public.as_str(), w);
            let ghost before = v@;
            v.push(line);
            proof {
                let pv = ports_view(ports@);
                assert(ports_view(ports@.take(i + 1)) =~= ports_view(ports@.take(i as int)).push(pv[i as int]));
                assert(v@.map_values(|s: String| s@) =~= before.map_values(|s: String| s@).push(line@));
            }
            i = i + 1;
        }
        proof {
            assert(ports@.take(ports@.len() as int) =~= ports@);
        }
        v
    }

    /// The text shown for a container without ports (see `no_ports_text`).
    pub fn empty_text(state: State) -> (s: &'static str)
        ensures
            s@ == no_ports_text(state),
    {
        match state {
            State::Running(_) | State::Paused | State::Restarting => "no ports",
            _ => "",
        }
    }
}

/// An error shown in a dialog.
pub struct ErrorPanel {}

/// The text below the error: for a lost Docker connection, the notice that
/// the application closes in `seconds` seconds; else the keys that clear
/// the error and quit.
pub open spec fn error_suffix(
    docker_connect: bool,
    clear: KeyBinding,
    quit: KeyBinding,
    name: Seq<char>,
    version: Seq<char>,
    seconds: Seq<char>,
) -> Seq<char> {
    if docker_connect {
        "\n\n "@ + name + "::v"@ + version + " closing in "@ + seconds + " seconds"@
    } else {
        "\n\n"@ + hint_key_text(clear, "clear error"@) + "\n\n"@ + hint_key_text(quit, "quit oxker"@)
    }
}

/// The whole text of the error dialog.
pub open spec fn error_dialog_text(
    error: Seq<char>,
    docker_connect: bool,
    clear: KeyBinding,
    quit: KeyBinding,
    name: Seq<char>,
    version: Seq<char>,
    seconds: Seq<char>,
) -> Seq<char> {
    "\n"@ + error + error_suffix(docker_connect, clear, quit, name, version, seconds)
}

/// `n`, or `u16::MAX` when it is larger.
pub open spec fn sat_u16(n: nat) -> u16 {
    if n > u16::MAX {
        u16::MAX
    } else {
        n as u16
    }
}

/// The size of the error dialog for `text`: its widest line plus 8, and its
/// number of lines plus 2, rounded up to an odd count.
pub open spec fn error_size(text: Seq<char>) -> (u16, u16) {
    let lines = line_widths(text).len();
    (
        sat_u16(spec_max_line_width(text) + 8),
        sat_u16(if lines % 2 == 0 {
            lines + 3
        } else {
            lines + 2
        }),
    )
}

impl ErrorPanel {
    pub fn new() -> (p: Self) {
        ErrorPanel {}
    }

    /// The text of the dialog (see `error_dialog_text`); the closing notice
    /// counts down from `seconds`.
    pub fn text(
        error: &str,
        docker_connect: bool,
        clear: KeyBinding,
        quit: KeyBinding,
        name: &str,
        version: &str,
        seconds: u8,
    ) -> (s: String)
        ensures
            s@ == error_dialog_text(
                error@,
                docker_connect,
                clear,
                quit,
                name@,
                version@,
                zero_padded(seconds as nat, 2),
            ),
    {
        let mut s = String::new();
        push_str(&mut s, "\n");
        push_str(&mut s, error);
        if docker_connect {
            push_str(&mut s, "\n\n ");
            push_str(&mut s, name);
            push_str(&mut s, "::v");
            push_str(&mut s, version);
            push_str(&mut s, " closing in ");
            push_zero_padded(&mut s, seconds as u64, 2);
            push_str(&mut s, " seconds");
        } else {
            let c = format_hint_key_text(clear, "clear error");
            let q = format_hint_key_text(quit, "quit oxker");
            push_str(&mut s, "\n\n");
            push_str(&mut s, c.as_str());
            push_str(&mut s, "\n\n");
            push_str(&mut s, q.as_str());
        }
        proof {
            assert(s@ =~= error_dialog_text(
                error@,
                docker_connect,
                clear,
                quit,
                name@,
                version@,
                zero_padded(seconds as nat, 2),
            ));
        }
        s
    }

    /// The size of the dialog, measured on its text with "XX" for the
    /// seconds (see `error_size`).
    pub fn calculate_size(
        error: &str,
        docker_connect: bool,
        clear: KeyBinding,
        quit: KeyBinding,
        name: &str,
        version: &str,
    ) -> (r: (u16, u16))
        ensures
            r == error_size(error_dialog_text(error@, docker_connect, clear, quit, name@, version@, "XX"@)),
    {
        let mut s = String::new();
        push_str(&mut s, "\n");
        push_str(&mut s, error);
        if docker_connect {
            push_str(&mut s, "\n\n ");
            push_str(&mut s, name);
            push_str(&mut s, "::v");
            push_str(&mut s, version);
            push_str(&mut s, " closing in XX seconds");
        } else {
            let c = format_hint_key_text(clear, "clear error");
            let q = format_hint_key_text(quit, "quit oxker");
            push_str(&mut s, "\n\n");
            push_str(&mut s, c.as_str());
            push_str(&mut s, "\n\n");
            push_str(&mut s, q.as_str());
        }
        proof {
            reveal_strlit(" closing in XX seconds");
            reveal_strlit(" closing in ");
            reveal_strlit("XX");
            reveal_strlit(" seconds");
            assert(s@ =~= error_dialog_text(error@, docker_connect, clear, quit, name@, version@, "XX"@));
        }
        let width = max_line_width(s.as_str()).saturating_add(8);
        let lines = line_widths_of(s.as_str()).len();
        let height = if lines % 2 == 0 {
            lines.saturating_add(3)
        } else {
            lines.saturating_add(2)
        };
        let w: u16 = if width > 65535 {
            65535
        } else {
            width as u16
        };
        let h: u16 = if height > 65535 {
            65535
        } else {
            height as u16
        };
        (w, h)
    }

    /// Where the dialog goes in `area`: centred, at its size.
    /// `area` must end within the screen's coordinates, as every rectangle
    /// that `Rect::new` makes does (it clamps the size so); a `Rect` built
    /// field by field may not.
    pub fn area(error: &str, docker_connect: bool, clear: KeyBinding, quit: KeyBinding, name: &str, version: &str, area: Rect) -> (r: Rect)
        requires
            area.x + area.width <= u16::MAX,
            area.y + area.height <= u16::MAX,
        ensures
            ({
                let size = error_size(error_dialog_text(error@, docker_connect, clear, quit, name@, version@, "XX"@));
                r == centered_rect(area, size.0, size.1)
            }),
    {
        let (w, h) = Self::calculate_size(error, docker_connect, clear, quit, name, version);
        centered(area, w, h)
    }
}

impl Default for ErrorPanel {
    fn default() -> (p: Self) {
        Self::new()
    }
}

/// The short form of an id: its first 8 chars.
pub open spec fn short_id(id: Seq<char>) -> Seq<char> {
    if id.len() > 8 {
        id.take(8)
    } else {
        id
    }
}

/// The texts of the parts of a container's row, in order: name, state and
/// status left-aligned, cpu and memory right-aligned ("mem / limit"), a
/// gap, the short id right-aligned, the image left-aligned, and the network
/// counters right-aligned, each followed by a margin. The numbers come as
/// text in `cpu`, `mem`, `limit`, `rx` and `tx`.
pub open spec fn container_row(
    c: RowView,
    cols: Columns,
    cpu: Seq<char>,
    mem: Seq<char>,
    limit: Seq<char>,
    rx: Seq<char>,
    tx: Seq<char>,
) -> Seq<Seq<char>> {
    seq![
        pad_right(c.name, cols.name.1 as nat) + "  "@,
        pad_right(state_label(c.state), cols.state.1 as nat) + "  "@,
        pad_right(c.status, cols.status.1 as nat) + "  "@,
        pad_left(cpu, cols.cpu.1 as nat, ' ') + "  "@,
        pad_left(mem, cols.mem.1 as nat, ' ') + " / "@ + limit,
        "  "@,
        pad_left(short_id(c.id), cols.id.1 as nat, ' ') + "  "@,
        pad_right(c.image, cols.image.1 as nat) + "  "@,
        pad_left(rx, cols.net_rx.1 as nat, ' ') + "  "@,
        pad_left(tx, cols.net_tx.1 as nat, ' ') + "  "@,
    ]
}

/// The text of a padded cell followed by the margin.
fn cell(t: &str, width: u8, left: bool) -> (s: String)
    ensures
        s@ == (if left {
            pad_right(t@, width as nat)
        } else {
            pad_left(t@, width as nat, ' ')
        }) + "  "@,
{
    let mut s = String::new();
    if left {
        push_padded_right(&mut s, t, width as usize);
    } else {
        push_padded_left(&mut s, t, width as usize);
    }
    push_str(&mut s, MARGIN);
    proof {
        reveal_strlit("  ");
    }
    s
}

/// The text of the "no containers" line: no match for an active filter,
/// the loading animation while loading, else none running.
pub open spec fn no_containers_text(filtering: bool, loading: bool, icon: Seq<char>) -> Seq<char> {
    if filtering {
        "no containers match filter"@
    } else if loading {
        "loading "@ + icon
    } else {
        "no containers running"@
    }
}

impl ContainersPanel {
    /// The texts of a container's row (see `container_row`).
    pub fn format_container(
        c: &ContainerView,
        cols: &Columns,
        cpu: &str,
        mem: &str,
        limit: &str,
        rx: &str,
        tx: &str,
    ) -> (r: Vec<String>)
        ensures
            r@.map_values(|x: String| x@) == container_row(c@, *cols, cpu@, mem@, limit@, rx@, tx@),
    {
        let s1 = cell(c.name.as_str(), cols.name.1, true);
        let s2 = cell(c.state.label(), cols.state.1, true);
        let s3 = cell(c.status.as_str(), cols.status.1, true);
        let s4 = cell(cpu, cols.cpu.1, false);
        let mut s5 = String::new();
        push_padded_left(&mut s5, mem, cols.mem.1 as usize);
        push_str(&mut s5, " / ");
        push_str(&mut s5, limit);
        let mut s6 = String::new();
        push_str(&mut s6, MARGIN);
        let short = c.id.get_short();
        let s7 = cell(short.as_str(), cols.id.1, false);
        let s8 = cell(c.image.as_str(), cols.image.1, true);
        let s9 = cell(rx, cols.net_rx.1, false);
        let s10 = cell(tx, cols.net_tx.1, false);
        let r = vec![s1, s2, s3, s4, s5, s6, s7, s8, s9, s10];
        proof {
            reveal_strlit("  ");
            assert(r@.map_values(|x: String| x@) =~= container_row(c@, *cols, cpu@, mem@, limit@, rx@, tx@));
        }
        r
    }

    /// The line shown when the list is empty (see `no_containers_text`).
    pub fn empty_text(filtering: bool, loading: bool, icon: &str) -> (s: String)
        ensures
            s@ == no_containers_text(filtering, loading, icon@),
    {
        let mut s = String::new();
        if filtering {
            push_str(&mut s, "no containers match filter");
        } else if loading {
            push_str(&mut s, "loading ");
            push_str(&mut s, icon);
        } else {
            push_str(&mut s, "no containers running");
        }
        s
    }
}

/// The separator of the parts of a log title.
pub open spec fn title_sep() -> Seq<char> {
    seq![' ', '-', ' ']
}

/// The second and third parts of `info` split at the first two " - ".
pub open spec fn title_split(info: Seq<char>) -> Option<(Seq<char>, Seq<char>)> {
    match first_occurrence(info, title_sep(), 0) {
        Some(a) => match first_occurrence(info, title_sep(), a + 3) {
            Some(b) => Some((info.subrange(a + 3, b), info.subrange(b + 3, info.len() as int))),
            None => None,
        },
        None => None,
    }
}

/// The title of the logs panel: the place of the selected line among the
/// lines ("0/0" without lines), then, when the logs belong to a container,
/// its name and image (taken back out of "Logs - name - image"), or the
/// whole container text when it is not in that form.
pub open spec fn logs_title(total: nat, position: nat, info: Seq<char>) -> Seq<char> {
    let cur = if total > 0 {
        position + 1
    } else {
        0
    };
    let head = " Logs "@ + decimal(cur) + "/"@ + decimal(total);
    if info.len() == 0 {
        head + " "@
    } else {
        match title_split(info) {
            Some((name, image)) => head + " - "@ + name + " - "@ + image + " "@,
            None => head + " - "@ + info + " "@,
        }
    }
}

/// The second and third parts of `info` (see `title_split`).
pub fn split_title(info: &str) -> (r: Option<(String, String)>)
    ensures
        match r {
            Some((a, b)) => title_split(info@) == Some((a@, b@)),
            None => title_split(info@) is None,
        },
{
    let cs = chars_of(info);
    let n = cs.len();
    let sep = vec![' ', '-', ' '];
    proof {
        assert(sep@ =~= title_sep());
    }
    match find_from(&cs, &sep, 0) {
        Some(a) => {
            proof {
                lemma_occurrence_in_bounds(cs@, sep@, 0);
                assert(a + 3 <= n);
            }
            match find_from(&cs, &sep, a + 3) {
                Some(b) => {
                    proof {
                        lemma_occurrence_in_bounds(cs@, sep@, a + 3);
                        assert(b + 3 <= n);
                    }
                    Some((string_of(&cs, a + 3, b), string_of(&cs, b + 3, n)))
                },
                None => None,
            }
        },
        None => None,
    }
}

impl LogsPanel {
    /// The title of the logs panel (see `logs_title`).
    pub fn generate_title(total_logs: usize, position: usize, container_info: &str) -> (s: String)
        requires
            total_logs <= u64::MAX,
            position < u64::MAX,
        ensures
            s@ == logs_title(total_logs as nat, position as nat, container_info@),
    {
        let cur: u64 = if total_logs > 0 {
            position as u64 + 1
        } else {
            0
        };
        let mut s = String::new();
        push_str(&mut s, " Logs ");
        push_decimal(&mut s, cur);
        push_str(&mut s, "/");
        push_decimal(&mut s, total_logs as u64);
        if container_info.is_empty() {
            push_str(&mut s, " ");
        } else {
            match split_title(container_info) {
                Some((name, image)) => {
                    push_str(&mut s, " - ");
                    push_str(&mut s, name.as_str());
                    push_str(&mut s, " - ");
                    push_str(&mut s, image.as_str());
                    push_str(&mut s, " ");
                },
                None => {
                    push_str(&mut s, " - ");
                    push_str(&mut s, container_info);
                    push_str(&mut s, " ");
                },
            }
        }
        proof {
            assert(s@ =~= logs_title(total_logs as nat, position as nat, container_info@));
        }
        s
    }
}

/// The sort mark of a header: an arrow when the list is sorted by it.
pub open spec fn sort_mark(header: Header, sorted_by: Option<(Header, SortedOrder)>) -> Seq<char> {
    match sorted_by {
        Some((h, order)) => if h == header {
            match order {
                SortedOrder::Asc => " ▲"@,
                SortedOrder::Desc => " ▼"@,
            }
        } else {
            ""@
        },
        None => ""@,
    }
}

/// The text of a column header: its name and sort mark, left-aligned in
/// `width`, then the margin.
pub open spec fn header_text(header: Header, sorted_by: Option<(Header, SortedOrder)>, width: nat) -> Seq<char> {
    pad_right(header_label(header) + sort_mark(header, sorted_by), width) + " "@
}

impl HeadersPanel {
    /// The text of a column header and its width in chars, 0 when that
    /// does not fit a `u16` (see `header_text`).
    pub fn gen_header(header: Header, sorted_by: Option<(Header, SortedOrder)>, width: usize) -> (r: (String, u16))
        ensures
            r.0@ == header_text(header, sorted_by, width as nat),
            r.1 == (if r.0@.len() <= u16::MAX {
                r.0@.len() as u16
            } else {
                0
            }),
    {
        let mut name = String::new();
        push_str(&mut name, header.label());
        let mark: &str = match sorted_by {
            Some((h, order)) => if h == header {
                match order {
                    SortedOrder::Asc => " ▲",
                    SortedOrder::Desc => " ▼",
                }
            } else {
                ""
            },
            None => "",
        };
        push_str(&mut name, mark);
        let mut s = String::new();
        push_padded_right(&mut s, name.as_str(), width);
        push_str(&mut s, HEADER_MARGIN);
        proof {
            reveal_strlit(" ");
        }
        let n = chars_of(s.as_str()).len();
        let count: u16 = if n <= 65535 {
            n as u16
        } else {
            0
        };
        (s, count)
    }

    /// The parts of the header bar: the spinner (at most 4 cells), the
    /// columns (the width left beside the help hint, at least 1) and the
    /// help hint; a single part over the whole bar without containers.
    pub fn bar_constraints(has_containers: bool, bar_width: u16, help_width: usize) -> (v: Vec<Constraint>)
        ensures
            v@ == header_bar_constraints(has_containers, bar_width, help_width as nat),
    {
        if has_containers {
            let left = (bar_width as usize).saturating_sub(help_width);
            let columns: u16 = if left > 0 {
                left as u16
            } else {
                1
            };
            let help: u16 = if help_width <= 65535 {
                help_width as u16
            } else {
                0
            };
            vec![Constraint::Max(4), Constraint::Max(columns), Constraint::Max(help)]
        } else {
            vec![Constraint::Percentage(100)]
        }
    }

    /// The column headers that fit in `section`, left to right, each with
    /// its text and the cell row it takes (see `header_blocks_fit`); none
    /// without containers.
    /// `section` must end within the screen's coordinates, as every rectangle
    /// that `Rect::new` makes does (it clamps the size so); a `Rect` built
    /// field by field may not.
    pub fn header_blocks(
        columns: Columns,
        sorted_by: Option<(Header, SortedOrder)>,
        section: Rect,
        has_containers: bool,
    ) -> (r: Vec<(Header, String, Rect)>)
        requires
            columns.mem.1 + columns.mem.2 + 3 <= u8::MAX,
            section.x + section.width <= u16::MAX,
        ensures
            header_blocks_fit(r@, column_widths(columns), sorted_by, section, has_containers),
    {
        let mut r: Vec<(Header, String, Rect)> = Vec::new();
        if !has_containers {
            return r;
        }
        let widths: Vec<(Header, u8)> = vec![
            (Header::Name, columns.name.1),
            (Header::State, columns.state.1),
            (Header::Status, columns.status.1),
            (Header::Cpu, columns.cpu.1),
            (Header::Memory, columns.mem.1 + columns.mem.2 + 3),
            (Header::Id, columns.id.1),
            (Header::Image, columns.image.1),
            (Header::Rx, columns.net_rx.1),
            (Header::Tx, columns.net_tx.1),
        ];
        let ghost ws = column_widths(columns);
        proof {
            assert(widths@ == ws);
        }
        let mut offset: u16 = 0;
        let mut i: usize = 0;
        while i < widths.len()
            invariant
                has_containers,
                widths@ == ws,
                ws == column_widths(columns),
                ws.len() == 9,
                forall|k: int| 0 <= k < 9 ==> #[trigger] ws[k].1 <= u8::MAX,
                i <= 9,
                offset as nat == headers_span(ws, sorted_by, i as int),
                offset <= section.width,
                section.x + section.width <= u16::MAX,
                r@.len() == i,
                forall|k: int| 0 <= k < i ==> #[trigger] block_at(r@[k], ws, sorted_by, section, k),
            decreases 9 - i,
        {
            let (header, width) = widths[i];
            let (text, count) = Self::gen_header(header, sorted_by, width as usize);
            proof {
                lemma_header_text_len(header, sorted_by, width as nat);
                assert(count as nat == header_text(ws[i as int].0, sorted_by, ws[i as int].1 as nat).len());
            }
            if (offset as usize) + (count as usize) > section.width as usize {
                return r;
            }
            let area = Rect { x: section.x + offset, y: section.y, width: count, height: 1 };
            r.push((header, text, area));
            offset = offset + count;
            i = i + 1;
        }
        r
    }
}

/// The column headers of the bar, with the width of each column.
pub open spec fn column_widths(c: Columns) -> Seq<(Header, u8)> {
    seq![
        (Header::Name, c.name.1),
        (Header::State, c.state.1),
        (Header::Status, c.status.1),
        (Header::Cpu, c.cpu.1),
        (Header::Memory, (c.mem.1 + c.mem.2 + 3) as u8),
        (Header::Id, c.id.1),
        (Header::Image, c.image.1),
        (Header::Rx, c.net_rx.1),
        (Header::Tx, c.net_tx.1),
    ]
}

/// The chars taken by the first `k` column headers.
pub open spec fn headers_span(ws: Seq<(Header, u8)>, sorted_by: Option<(Header, SortedOrder)>, k: int) -> nat
    decreases k,
{
    if k <= 0 {
        0
    } else {
        headers_span(ws, sorted_by, k - 1) + header_text(ws[k - 1].0, sorted_by, ws[k - 1].1 as nat).len()
    }
}

/// The `k`-th header block: the header, its text, and one row right after
/// the blocks before it.
pub open spec fn block_at(
    b: (Header, String, Rect),
    ws: Seq<(Header, u8)>,
    sorted_by: Option<(Header, SortedOrder)>,
    section: Rect,
    k: int,
) -> bool {
    let text = header_text(ws[k].0, sorted_by, ws[k].1 as nat);
    &&& b.0 == ws[k].0
    &&& b.1@ == text
    &&& b.2 == (Rect {
        x: (section.x + headers_span(ws, sorted_by, k)) as u16,
        y: section.y,
        width: text.len() as u16,
        height: 1,
    })
}

/// The blocks are those of the longest run of headers, from the first, that
/// fits in the section's width; none without containers.
pub open spec fn header_blocks_fit(
    r: Seq<(Header, String, Rect)>,
    ws: Seq<(Header, u8)>,
    sorted_by: Option<(Header, SortedOrder)>,
    section: Rect,
    has_containers: bool,
) -> bool {
    if !has_containers {
        r.len() == 0
    } else {
        &&& r.len() <= ws.len()
        &&& forall|k: int| 0 <= k < r.len() ==> #[trigger] block_at(r[k], ws, sorted_by, section, k)
        &&& headers_span(ws, sorted_by, r.len() as int) <= section.width
        &&& (r.len() == ws.len() || headers_span(ws, sorted_by, r.len() + 1int) > section.width)
    }
}

/// The parts of the header bar (see `HeadersPanel::bar_constraints`).
pub open spec fn header_bar_constraints(has_containers: bool, bar_width: u16, help_width: nat) -> Seq<Constraint> {
    if has_containers {
        let left = if bar_width > help_width { (bar_width - help_width) as nat } else { 0 };
        seq![
            Constraint::Max(4),
            Constraint::Max(if left > 0 { left as u16 } else { 1 }),
            Constraint::Max(if help_width <= u16::MAX { help_width as u16 } else { 0 }),
        ]
    } else {
        seq![Constraint::Percentage(100)]
    }
}

proof fn lemma_header_text_len(header: Header, sorted_by: Option<(Header, SortedOrder)>, width: nat)
    requires
        width <= u8::MAX,
    ensures
        header_text(header, sorted_by, width).len() <= 270,
{
    assert(header_label(header).len() <= 12) by {
        reveal_strlit("name");
        reveal_strlit("state");
        reveal_strlit("status");
        reveal_strlit("cpu");
        reveal_strlit("memory/limit");
        reveal_strlit("id");
        reveal_strlit("image");
        reveal_strlit("↓ rx");
        reveal_strlit("↑ tx");
    }
    assert(sort_mark(header, sorted_by).len() <= 2) by {
        reveal_strlit(" ▲");
        reveal_strlit(" ▼");
        reveal_strlit("");
    }
    reveal_strlit(" ");
    let s = header_label(header) + sort_mark(header, sorted_by);
    assert(s.len() <= 14);
    assert(pad_right(s, width).len() <= 255) by {
        if s.len() < width {
            crate::fmt::lemma_repeat_len(' ', (width - s.len()) as nat);
        }
    }
}

/// The filter fields as the filter bar lists them, with whether each is
/// the one filtered by.
pub open spec fn filter_options(by: FilterBy) -> Seq<(Seq<char>, bool)> {
    seq![
        (" Name "@, by == FilterBy::Name),
        (" Image "@, by == FilterBy::Image),
        (" Status "@, by == FilterBy::Status),
        (" All "@, by == FilterBy::All),
    ]
}

impl FilterPanel {
    /// The filter fields and which one is selected (see `filter_options`).
    pub fn filter_by_options(by: FilterBy) -> (r: Vec<(&'static str, bool)>)
        ensures
            r@.map_values(|x: (&'static str, bool)| (x.0@, x.1)) == filter_options(by),
    {
        let r = vec![
            (" Name ", by == FilterBy::Name),
            (" Image ", by == FilterBy::Image),
            (" Status ", by == FilterBy::Status),
            (" All ", by == FilterBy::All),
        ];
        proof {
            assert(r@.map_values(|x: (&'static str, bool)| (x.0@, x.1)) =~= filter_options(by));
        }
        r
    }

    /// The term shown in the filter bar: the filter text, or nothing.
    pub fn term_text(term: &Option<String>) -> (s: String)
        ensures
            s@ == match term {
                Some(t) => t@,
                None => Seq::<char>::empty(),
            },
    {
        match term {
            Some(t) => t.clone(),
            None => String::new(),
        }
    }
}

/// Events kept by the debug panel.
pub const MAX_DEBUG_EVENTS: usize = 1000;

/// An event of the debug panel: when it happened (milliseconds since the
/// Unix epoch, `None` when the clock read before it), what happened, and
/// how long it took.
#[derive(Debug, Clone)]
pub struct TimedEvent {
    pub timestamp: Option<u64>,
    pub event_type: String,
    pub details: String,
    pub latency_ms: Option<u64>,
}

/// The plain values of an event.
pub struct TimedEventView {
    pub timestamp: Option<u64>,
    pub event_type: Seq<char>,
    pub details: Seq<char>,
    pub latency_ms: Option<u64>,
}

impl View for TimedEvent {
    type V = TimedEventView;

    open spec fn view(&self) -> TimedEventView {
        TimedEventView {
            timestamp: self.timestamp,
            event_type: self.event_type@,
            details: self.details@,
            latency_ms: self.latency_ms,
        }
    }
}

/// The history after `e` is added: the oldest event goes beyond 1000.
pub open spec fn push_event(h: Seq<TimedEventView>, e: TimedEventView) -> Seq<TimedEventView> {
    let b = h.push(e);
    if b.len() > MAX_DEBUG_EVENTS {
        b.drop_first()
    } else {
        b
    }
}

/// The line of an event: the seconds within the minute and the
/// milliseconds ("??" when the clock read before the epoch), the type, the
/// details, and the latency when known.
pub open spec fn event_text(e: TimedEventView) -> Seq<char> {
    let stamp = match e.timestamp {
        Some(ms) => decimal(((ms / 1000) % 60) as nat) + "."@ + zero_padded((ms % 1000) as nat, 3),
        None => "??"@,
    };
    let latency = match e.latency_ms {
        Some(l) => " ["@ + decimal(l as nat) + "ms]"@,
        None => ""@,
    };
    stamp + "s "@ + e.event_type + " "@ + e.details + latency
}

/// Debug panel component for displaying realtime events.
#[derive(Debug)]
pub struct DebugPanel {
    event_history: VecDeque<TimedEvent>,
    scroll_position: usize,
}

impl DebugPanel {
    /// The events, oldest first.
    pub closed spec fn history(&self) -> Seq<TimedEventView> {
        self.event_history@.map_values(|e: TimedEvent| e@)
    }

    /// The scroll position.
    pub closed spec fn scroll(&self) -> nat {
        self.scroll_position as nat
    }

    /// An empty panel at the top.
    pub fn new() -> (p: Self)
        ensures
            p.history() == Seq::<TimedEventView>::empty(),
            p.scroll() == 0,
    {
        let p = DebugPanel { event_history: VecDeque::new(), scroll_position: 0 };
        proof {
            assert(p.history() =~= Seq::<TimedEventView>::empty());
        }
        p
    }

    /// The events, oldest first.
    pub fn event_history(&self) -> (h: &VecDeque<TimedEvent>)
        ensures
            h@.map_values(|e: TimedEvent| e@) == self.history(),
    {
        &self.event_history
    }

    /// The scroll position.
    pub fn scroll_position(&self) -> (n: usize)
        ensures
            n == self.scroll(),
    {
        self.scroll_position
    }

    /// Add an event that happened at `timestamp`, keeping the newest 1000,
    /// and scroll to it.
    pub fn add_event_at(&mut self, event_type: String, details: String, latency_ms: Option<u64>, timestamp: Option<u64>)
        ensures
            final(self).history() == push_event(
                old(self).history(),
                TimedEventView { timestamp, event_type: event_type@, details: details@, latency_ms },
            ),
            final(self).scroll() == final(self).history().len() - 1,
    {
        let ghost before = self.event_history@;
        let e = TimedEvent { timestamp, event_type, details, latency_ms };
        let ghost ev = e@;
        self.event_history.push_back(e);
        proof {
            assert(self.event_history@.map_values(|e: TimedEvent| e@) =~= before.map_values(|e: TimedEvent| e@).push(ev));
        }
        if self.event_history.len() > MAX_DEBUG_EVENTS {
            let ghost b = self.event_history@;
            self.event_history.pop_front();
            proof {
                assert(self.event_history@.map_values(|e: TimedEvent| e@) =~= b.map_values(|e: TimedEvent| e@).drop_first());
            }
        }
        self.scroll_position = self.event_history.len() - 1;
    }

    /// Add an event that happens now (see `add_event_at`); the time is
    /// whatever the clock reads.
    pub fn add_event(&mut self, event_type: String, details: String, latency_ms: Option<u64>)
        ensures
            final(self).history() == push_event(
                old(self).history(),
                TimedEventView {
                    timestamp: final(self).history().last().timestamp,
                    event_type: event_type@,
                    details: details@,
                    latency_ms,
                },
            ),
            final(self).scroll() == final(self).history().len() - 1,
    {
        self.add_event_at(event_type, details, latency_ms, system_time_ms());
    }

    /// Record `event` as happening now (see `add_event`); the panel sends
    /// nothing to the core.
    pub fn handle_event(&mut self, event: &TimedEvent) -> (r: Option<CoreCommand>)
        ensures
            r is None,
            final(self).history() == push_event(
                old(self).history(),
                TimedEventView {
                    timestamp: final(self).history().last().timestamp,
                    event_type: event.event_type@,
                    details: event.details@,
                    latency_ms: event.latency_ms,
                },
            ),
            final(self).scroll() == final(self).history().len() - 1,
    {
        self.add_event(event.event_type.clone(), event.details.clone(), event.latency_ms);
        None
    }

    /// The line of an event (see `event_text`).
    pub fn format_event(event: &TimedEvent) -> (s: String)
        ensures
            s@ == event_text(event@),
    {
        let mut s = String::new();
        match event.timestamp {
            Some(ms) => {
                push_decimal(&mut s, (ms / 1000) % 60);
                push_str(&mut s, ".");
                push_zero_padded(&mut s, ms % 1000, 3);
            },
            None => push_str(&mut s, "??"),
        }
        let ghost stamp = s@;
        push_str(&mut s, "s ");
        push_str(&mut s, event.event_type.as_str());
        push_str(&mut s, " ");
        push_str(&mut s, event.details.as_str());
        let ghost mid = s@;
        match event.latency_ms {
            Some(l) => {
                push_str(&mut s, " [");
                push_decimal(&mut s, l);
                push_str(&mut s, "ms]");
            },
            None => {},
        }
        proof {
            let e = event@;
            let st = match e.timestamp {
                Some(ms) => decimal(((ms / 1000) % 60) as nat) + "."@ + zero_padded((ms % 1000) as nat, 3),
                None => "??"@,
            };
            assert(stamp =~= st);
            let lat = match e.latency_ms {
                Some(l) => " ["@ + decimal(l as nat) + "ms]"@,
                None => ""@,
            };
            assert(mid =~= st + "s "@ + e.event_type + " "@ + e.details);
            reveal_strlit("");
            assert(s@ =~= mid + lat);
        }
        s
    }

    /// Scroll up one event, stopping at the top.
    pub fn scroll_up(&mut self)
        ensures
            final(self).history() == old(self).history(),
            final(self).scroll() == if old(self).scroll() == 0 {
                0
            } else {
                (old(self).scroll() - 1) as nat
            },
    {
        self.scroll_position = self.scroll_position.saturating_sub(1);
    }

    /// Scroll down one event, stopping at the last.
    pub fn scroll_down(&mut self)
        ensures
            final(self).history() == old(self).history(),
            final(self).scroll() == if old(self).scroll() + 1 < old(self).history().len() {
                old(self).scroll() + 1
            } else {
                old(self).scroll()
            },
    {
        let n = self.event_history.len();
        proof {
            assert(self.history().len() == n);
        }
        if self.scroll_position < usize::MAX && self.scroll_position + 1 < n {
            self.scroll_position = self.scroll_position + 1;
        }
    }

    /// Scroll to the first event.
    pub fn scroll_to_top(&mut self)
        ensures
            final(self).history() == old(self).history(),
            final(self).scroll() == 0,
    {
        self.scroll_position = 0;
    }

    /// Scroll to the last event (the top when there is none).
    pub fn scroll_to_bottom(&mut self)
        ensures
            final(self).history() == old(self).history(),
            final(self).scroll() == if old(self).history().len() == 0 {
                0
            } else {
                (old(self).history().len() - 1) as nat
            },
    {
        self.scroll_position = self.event_history.len().saturating_sub(1);
    }
}

/// The debug panel never holds more than 1000 events, and the newest is last.
pub proof fn law_event_history_capped(h: Seq<TimedEventView>, e: TimedEventView)
    requires
        h.len() <= MAX_DEBUG_EVENTS,
    ensures
        push_event(h, e).len() <= MAX_DEBUG_EVENTS,
        push_event(h, e).last() == e,
{
}

} // verus!
