//! The container, command and key data that the UI works on.
use vstd::prelude::*;

verus! {

/// A container id.
#[derive(Debug, Clone)]
pub struct ContainerId {
    pub id: String,
}

impl View for ContainerId {
    type V = Seq<char>;

    open spec fn view(&self) -> Seq<char> {
        self.id@
    }
}

/// The text of an optional container id.
pub open spec fn opt_id_view(c: Option<ContainerId>) -> Option<Seq<char>> {
    match c {
        Some(id) => Some(id@),
        None => None,
    }
}

impl ContainerId {
    /// A container id from its text.
    pub fn from_string(id: String) -> (c: Self)
        ensures
            c.id == id,
    {
        ContainerId { id }
    }

    /// The id as text.
    pub fn get(&self) -> (s: &str)
        ensures
            s@ == self.id@,
    {
        self.id.as_str()
    }

    /// A copy of the id.
    pub fn duplicate(&self) -> (c: Self)
        ensures
            c == *self,
    {
        ContainerId { id: self.id.clone() }
    }

    /// The first 8 chars of the id, as the container list shows it.
    pub fn get_short(&self) -> (s: String)
        ensures
            s@ == if self.id@.len() > 8 {
                self.id@.take(8)
            } else {
                self.id@
            },
    {
        let cs = crate::text::chars_of(self.id.as_str());
        let n = if cs.len() > 8 {
            8
        } else {
            cs.len()
        };
        let s = crate::text::string_of(&cs, 0, n);
        proof {
            assert(cs@.subrange(0, n as int) =~= (if self.id@.len() > 8 {
                self.id@.take(8)
            } else {
                self.id@
            }));
        }
        s
    }

    /// Whether two ids are the same text.
    pub fn same(&self, other: &ContainerId) -> (b: bool)
        ensures
            b == (self.id@ == other.id@),
    {
        self.id == other.id
    }
}

/// The commands that can be sent to Docker for a container.
#[derive(Debug, Clone, Copy, PartialEq, Eq, Structural, Hash)]
pub enum DockerCommand {
    Pause,
    Restart,
    Resume,
    Start,
    Stop,
    Delete,
}

/// The name of a command, in lowercase.
pub open spec fn command_label(c: DockerCommand) -> Seq<char> {
    match c {
        DockerCommand::Pause => "pause"@,
        DockerCommand::Restart => "restart"@,
        DockerCommand::Resume => "resume"@,
        DockerCommand::Start => "start"@,
        DockerCommand::Stop => "stop"@,
        DockerCommand::Delete => "delete"@,
    }
}

impl DockerCommand {
    /// The name of the command, in lowercase.
    pub fn label(&self) -> (s: &'static str)
        ensures
            s@ == command_label(*self),
            s.is_ascii(),
    {
        let s = match self {
            Self::Pause => "pause",
            Self::Restart => "restart",
            Self::Resume => "resume",
            Self::Start => "start",
            Self::Stop => "stop",
            Self::Delete => "delete",
        };
        proof {
            reveal_strlit("pause");
            reveal_strlit("restart");
            reveal_strlit("resume");
            reveal_strlit("start");
            reveal_strlit("stop");
            reveal_strlit("delete");
        }
        s
    }
}

/// The columns of the container list, by which it can be sorted.
#[derive(Debug, Clone, Copy, PartialEq, Eq, Structural, Hash)]
pub enum Header {
    Name,
    State,
    Status,
    Cpu,
    Memory,
    Id,
    Image,
    Rx,
    Tx,
}

/// Health of a running container.
#[derive(Debug, Clone, Copy, PartialEq, Eq, Structural, Hash)]
pub enum RunningState {
    Healthy,
    Unhealthy,
}

/// The state of a container.
#[derive(Debug, Clone, Copy, PartialEq, Eq, Structural, Hash)]
pub enum State {
    Dead,
    Exited,
    Paused,
    Removing,
    Restarting,
    Running(RunningState),
    Unknown,
}

/// The commands offered for a container in a given state.
pub open spec fn commands_for(state: State) -> Seq<DockerCommand> {
    match state {
        State::Dead | State::Exited => seq![
            DockerCommand::Start,
            DockerCommand::Restart,
            DockerCommand::Delete,
        ],
        State::Paused => seq![DockerCommand::Resume, DockerCommand::Stop, DockerCommand::Delete],
        State::Restarting => seq![DockerCommand::Stop, DockerCommand::Delete],
        State::Running(_) => seq![
            DockerCommand::Pause,
            DockerCommand::Restart,
            DockerCommand::Stop,
            DockerCommand::Delete,
        ],
        _ => seq![DockerCommand::Delete],
    }
}

impl DockerCommand {
    /// The commands offered for a container in `state`.
    pub fn gen_vec(state: State) -> (v: Vec<DockerCommand>)
        ensures
            v@ == commands_for(state),
    {
        let v = match state {
            State::Dead | State::Exited => vec![Self::Start, Self::Restart, Self::Delete],
            State::Paused => vec![Self::Resume, Self::Stop, Self::Delete],
            State::Restarting => vec![Self::Stop, Self::Delete],
            State::Running(_) => vec![Self::Pause, Self::Restart, Self::Stop, Self::Delete],
            _ => vec![Self::Delete],
        };
        proof {
            assert(v@ =~= commands_for(state));
        }
        v
    }
}

/// A port of a container: the host ip, the private port, and the public
/// port it is published on, if any.
#[derive(Debug, Clone)]
pub struct ContainerPorts {
    pub ip: Option<String>,
    pub private: u16,
    pub public: Option<u16>,
}

/// The plain values of a port.
pub struct PortView {
    pub ip: Option<Seq<char>>,
    pub private: u16,
    pub public: Option<u16>,
}

impl View for ContainerPorts {
    type V = PortView;

    open spec fn view(&self) -> PortView {
        PortView {
            ip: match self.ip {
                Some(s) => Some(s@),
                None => None,
            },
            private: self.private,
            public: self.public,
        }
    }
}

/// The plain values of a list of ports.
pub open spec fn ports_view(p: Seq<ContainerPorts>) -> Seq<PortView> {
    p.map_values(|x: ContainerPorts| x@)
}

/// A copy of a list of ports.
pub fn duplicate_ports(p: &Vec<ContainerPorts>) -> (r: Vec<ContainerPorts>)
    ensures
        ports_view(r@) == ports_view(p@),
{
    let mut r: Vec<ContainerPorts> = Vec::new();
    let mut i: usize = 0;
    while i < p.len()
        invariant
            i <= p@.len(),
            ports_view(r@) == ports_view(p@.take(i as int)),
        decreases p@.len() - i,
    {
        let ghost before = r@;
        let x = p[i].duplicate();
        r.push(x);
        proof {
            assert(p@.take(i + 1) =~= p@.take(i as int).push(p@[i as int]));
            assert(ports_view(r@) =~= ports_view(before).push(x@));
            assert(ports_view(p@.take(i + 1)) =~= ports_view(p@.take(i as int)).push(p@[i as int]@));
        }
        i = i + 1;
    }
    proof {
        assert(p@.take(p@.len() as int) =~= p@);
    }
    r
}

impl ContainerPorts {
    /// A copy of the port.
    pub fn duplicate(&self) -> (p: Self)
        ensures
            p@ == self@,
    {
        ContainerPorts {
            ip: match &self.ip {
                Some(s) => Some(s.clone()),
                None => None,
            },
            private: self.private,
            public: self.public,
        }
    }
}

/// Fields by which the container list can be filtered.
#[derive(Debug, Clone, Copy, PartialEq, Eq, Structural, Hash)]
pub enum FilterBy {
    Name,
    Image,
    Status,
    All,
}

/// Direction of a sort, as the headers show it.
#[derive(Debug, Clone, Copy, PartialEq, Eq, Structural, Hash)]
pub enum SortedOrder {
    Asc,
    Desc,
}

/// Fields by which the core can sort containers.
#[derive(Debug, Clone, Copy, PartialEq, Eq, Structural, Hash)]
pub enum SortField {
    Name,
    State,
    Status,
    Cpu,
    Memory,
    Id,
    Image,
    NetworkRx,
    NetworkTx,
}

/// Direction of a sort, as the core takes it.
#[derive(Debug, Clone, Copy, PartialEq, Eq, Structural, Hash)]
pub enum SortOrder {
    Ascending,
    Descending,
}

/// The commands that the UI sends to the core.
#[derive(Debug, Clone, PartialEq, Eq)]
pub enum CoreCommand {
    StartContainer(String),
    StopContainer(String),
    PauseContainer(String),
    UnpauseContainer(String),
    RestartContainer(String),
    RemoveContainer(String),
    SortContainers(SortField, SortOrder),
    FilterContainers(String),
    RefreshContainers,
    RefreshLogs(String),
    ExecuteCommand { container_id: String, command: Vec<String> },
}

/// The plain values of a command to the core.
pub enum CoreCommandView {
    StartContainer(Seq<char>),
    StopContainer(Seq<char>),
    PauseContainer(Seq<char>),
    UnpauseContainer(Seq<char>),
    RestartContainer(Seq<char>),
    RemoveContainer(Seq<char>),
    SortContainers(SortField, SortOrder),
    FilterContainers(Seq<char>),
    RefreshContainers,
    RefreshLogs(Seq<char>),
    ExecuteCommand { container_id: Seq<char>, command: Seq<Seq<char>> },
}

impl View for CoreCommand {
    type V = CoreCommandView;

    open spec fn view(&self) -> CoreCommandView {
        match self {
            CoreCommand::StartContainer(s) => CoreCommandView::StartContainer(s@),
            CoreCommand::StopContainer(s) => CoreCommandView::StopContainer(s@),
            CoreCommand::PauseContainer(s) => CoreCommandView::PauseContainer(s@),
            CoreCommand::UnpauseContainer(s) => CoreCommandView::UnpauseContainer(s@),
            CoreCommand::RestartContainer(s) => CoreCommandView::RestartContainer(s@),
            CoreCommand::RemoveContainer(s) => CoreCommandView::RemoveContainer(s@),
            CoreCommand::SortContainers(f, o) => CoreCommandView::SortContainers(*f, *o),
            CoreCommand::FilterContainers(s) => CoreCommandView::FilterContainers(s@),
            CoreCommand::RefreshContainers => CoreCommandView::RefreshContainers,
            CoreCommand::RefreshLogs(s) => CoreCommandView::RefreshLogs(s@),
            CoreCommand::ExecuteCommand { container_id, command } => CoreCommandView::ExecuteCommand {
                container_id: container_id@,
                command: command@.map_values(|x: String| x@),
            },
        }
    }
}

/// A key of the keyboard.
#[derive(Debug, Clone, Copy, PartialEq, Eq, Structural, Hash)]
pub enum KeyCode {
    Backspace,
    Enter,
    Left,
    Right,
    Up,
    Down,
    Home,
    End,
    PageUp,
    PageDown,
    Tab,
    BackTab,
    Delete,
    Insert,
    F(u8),
    Char(char),
    Esc,
    Null,
    CapsLock,
}

/// A set of modifier keys, one bit each.
#[derive(Debug, Clone, Copy, PartialEq, Eq, Structural, Hash)]
pub struct KeyModifiers {
    pub bits: u8,
}

/// A key binding: a key, and optionally a second key that does the same.
#[derive(Debug, Clone, Copy, PartialEq, Eq, Structural)]
pub struct KeyBinding {
    pub primary: KeyCode,
    pub secondary: Option<KeyCode>,
}

/// Whether `key` is one of the keys of `binding`.
pub open spec fn bound_to(binding: KeyBinding, key: KeyCode) -> bool {
    binding.primary == key || binding.secondary == Some(key)
}

/// Whether `key` is one of the keys of `binding`.
pub fn is_bound(binding: KeyBinding, key: KeyCode) -> (b: bool)
    ensures
        b == bound_to(binding, key),
{
    binding.primary == key || binding.secondary == Some(key)
}

/// The key bindings of the application.
#[derive(Debug, Clone, Copy)]
pub struct Keymap {
    pub clear: KeyBinding,
    pub delete_confirm: KeyBinding,
    pub delete_deny: KeyBinding,
    pub exec_container: KeyBinding,
    pub filter_mode: KeyBinding,
    pub force_redraw: KeyBinding,
    pub log_scroll_back: KeyBinding,
    pub log_scroll_forward: KeyBinding,
    pub log_section_height_decrease: KeyBinding,
    pub log_section_height_increase: KeyBinding,
    pub log_section_toggle: KeyBinding,
    pub quit: KeyBinding,
    pub save_logs: KeyBinding,
    pub scroll_down_many: KeyBinding,
    pub scroll_down_one: KeyBinding,
    pub scroll_end: KeyBinding,
    pub scroll_many: KeyModifiers,
    pub scroll_start: KeyBinding,
    pub scroll_up_many: KeyBinding,
    pub scroll_up_one: KeyBinding,
    pub select_next_panel: KeyBinding,
    pub select_previous_panel: KeyBinding,
    pub sort_by_cpu: KeyBinding,
    pub sort_by_id: KeyBinding,
    pub sort_by_image: KeyBinding,
    pub sort_by_memory: KeyBinding,
    pub sort_by_name: KeyBinding,
    pub sort_by_rx: KeyBinding,
    pub sort_by_state: KeyBinding,
    pub sort_by_status: KeyBinding,
    pub sort_by_tx: KeyBinding,
    pub sort_reset: KeyBinding,
    pub toggle_help: KeyBinding,
    pub toggle_mouse_capture: KeyBinding,
}

/// A state as Docker names it.
pub open spec fn state_text(s: State) -> Seq<char> {
    match s {
        State::Dead => "dead"@,
        State::Exited => "exited"@,
        State::Paused => "paused"@,
        State::Removing => "removing"@,
        State::Restarting => "restarting"@,
        State::Running(_) => "running"@,
        State::Unknown => "unknown"@,
    }
}

/// A state as the container list writes it.
pub open spec fn state_label(s: State) -> Seq<char> {
    match s {
        State::Dead => "✖ dead"@,
        State::Exited => "✖ exited"@,
        State::Paused => "॥ paused"@,
        State::Removing => "removing"@,
        State::Restarting => "↻ restarting"@,
        State::Running(RunningState::Healthy) => "✓ running"@,
        State::Running(RunningState::Unhealthy) => "! running"@,
        State::Unknown => "? unknown"@,
    }
}

impl State {
    /// The state as the container list writes it.
    pub fn label(&self) -> (s: &'static str)
        ensures
            s@ == state_label(*self),
    {
        match self {
            State::Dead => "✖ dead",
            State::Exited => "✖ exited",
            State::Paused => "॥ paused",
            State::Removing => "removing",
            State::Restarting => "↻ restarting",
            State::Running(RunningState::Healthy) => "✓ running",
            State::Running(RunningState::Unhealthy) => "! running",
            State::Unknown => "? unknown",
        }
    }

    /// The state as Docker names it.
    pub fn as_str(&self) -> (s: &'static str)
        ensures
            s@ == state_text(*self),
    {
        match self {
            State::Dead => "dead",
            State::Exited => "exited",
            State::Paused => "paused",
            State::Removing => "removing",
            State::Restarting => "restarting",
            State::Running(_) => "running",
            State::Unknown => "unknown",
        }
    }

    /// Whether the container is up: running, paused or restarting.
    pub fn is_alive(&self) -> (b: bool)
        ensures
            b == (*self is Running || *self == State::Paused || *self == State::Restarting),
    {
        match self {
            State::Running(_) | State::Paused | State::Restarting => true,
            _ => false,
        }
    }
}

/// A column header as the header bar writes it.
pub open spec fn header_label(h: Header) -> Seq<char> {
    match h {
        Header::Name => "name"@,
        Header::State => "state"@,
        Header::Status => "status"@,
        Header::Cpu => "cpu"@,
        Header::Memory => "memory/limit"@,
        Header::Id => "id"@,
        Header::Image => "image"@,
        Header::Rx => "↓ rx"@,
        Header::Tx => "↑ tx"@,
    }
}

impl Header {
    /// The header as the header bar writes it.
    pub fn label(&self) -> (s: &'static str)
        ensures
            s@ == header_label(*self),
    {
        match self {
            Header::Name => "name",
            Header::State => "state",
            Header::Status => "status",
            Header::Cpu => "cpu",
            Header::Memory => "memory/limit",
            Header::Id => "id",
            Header::Image => "image",
            Header::Rx => "↓ rx",
            Header::Tx => "↑ tx",
        }
    }
}

/// The widths of the columns of the container list, each with its header.
#[derive(Debug, Clone, Copy)]
pub struct Columns {
    pub name: (Header, u8),
    pub state: (Header, u8),
    pub status: (Header, u8),
    pub cpu: (Header, u8),
    pub mem: (Header, u8, u8),
    pub id: (Header, u8),
    pub image: (Header, u8),
    pub net_rx: (Header, u8),
    pub net_tx: (Header, u8),
}

/// The starting widths of the columns: the length of each header's name.
pub open spec fn header_columns() -> Columns {
    Columns {
        name: (Header::Name, 4),
        state: (Header::State, 5),
        status: (Header::Status, 6),
        cpu: (Header::Cpu, 3),
        mem: (Header::Memory, 6, 6),
        id: (Header::Id, 2),
        image: (Header::Image, 5),
        net_rx: (Header::Rx, 4),
        net_tx: (Header::Tx, 4),
    }
}

impl Columns {
    /// The starting widths of the columns (see `header_columns`).
    pub fn new() -> (c: Self)
        ensures
            c == header_columns(),
    {
        Columns {
            name: (Header::Name, 4),
            state: (Header::State, 5),
            status: (Header::Status, 6),
            cpu: (Header::Cpu, 3),
            mem: (Header::Memory, 6, 6),
            id: (Header::Id, 2),
            image: (Header::Image, 5),
            net_rx: (Header::Rx, 4),
            net_tx: (Header::Tx, 4),
        }
    }
}

} // verus!
