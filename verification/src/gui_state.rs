//! The state of the interface: selected panel, statuses, log panel size,
//! clickable regions, loading animation and the info box.
use vstd::prelude::*;
use crate::idset::{map_where, stamp_age, IdSet, StampMap};
use crate::layout::{intersects, overlaps, Rect};
use crate::model::{opt_id_view, ContainerId, DockerCommand, Header};

verus! {

/// The panels that can be selected.
#[derive(Debug, Clone, Copy, Eq, Hash, PartialEq, Structural)]
pub enum SelectablePanel {
    Containers,
    Commands,
    Logs,
}

/// The panel after `p`: Containers, Commands, Logs, then Containers again.
pub open spec fn panel_after(p: SelectablePanel) -> SelectablePanel {
    match p {
        SelectablePanel::Containers => SelectablePanel::Commands,
        SelectablePanel::Commands => SelectablePanel::Logs,
        SelectablePanel::Logs => SelectablePanel::Containers,
    }
}

/// The panel before `p`.
pub open spec fn panel_before(p: SelectablePanel) -> SelectablePanel {
    match p {
        SelectablePanel::Containers => SelectablePanel::Logs,
        SelectablePanel::Commands => SelectablePanel::Containers,
        SelectablePanel::Logs => SelectablePanel::Commands,
    }
}

/// The title of a panel (the commands panel has none).
pub open spec fn panel_title(p: SelectablePanel) -> Seq<char> {
    match p {
        SelectablePanel::Containers => "Containers"@,
        SelectablePanel::Logs => "Logs"@,
        SelectablePanel::Commands => ""@,
    }
}

impl SelectablePanel {
    /// The title of the panel.
    pub fn title(self) -> (s: &'static str)
        ensures
            s@ == panel_title(self),
    {
        match self {
            Self::Containers => "Containers",
            Self::Logs => "Logs",
            Self::Commands => "",
        }
    }

    /// The next panel.
    pub fn next(self) -> (p: Self)
        ensures
            p == panel_after(self),
    {
        match self {
            Self::Containers => Self::Commands,
            Self::Commands => Self::Logs,
            Self::Logs => Self::Containers,
        }
    }

    /// The previous panel.
    pub fn prev(self) -> (p: Self)
        ensures
            p == panel_before(self),
    {
        match self {
            Self::Containers => Self::Logs,
            Self::Commands => Self::Containers,
            Self::Logs => Self::Commands,
        }
    }
}

impl Default for SelectablePanel {
    fn default() -> (p: Self)
        ensures
            p == SelectablePanel::Containers,
    {
        SelectablePanel::Containers
    }
}

/// Going to the next panel and back, or back and then forward, returns to the
/// same panel; three steps forward go round.
pub proof fn law_panel_next_prev(p: SelectablePanel)
    ensures
        panel_before(panel_after(p)) == p,
        panel_after(panel_before(p)) == p,
        panel_after(panel_after(panel_after(p))) == p,
{
}

/// The buttons of the delete confirmation dialog.
#[derive(Debug, Clone, Copy, Eq, Hash, PartialEq, Structural)]
pub enum DeleteButton {
    Confirm,
    Cancel,
}

/// The buttons of the command confirmation dialog.
#[derive(Debug, Clone, Copy, PartialEq, Eq, Hash, Structural)]
pub enum ConfirmationButton {
    Cancel,
    Confirm,
}

/// A clickable region of the screen.
#[derive(Debug, Copy, Clone, PartialEq, Eq, Structural)]
pub enum Region {
    Panel(SelectablePanel),
    Header(Header),
    HelpPanel,
    Delete(DeleteButton),
    ConfirmationModal(ConfirmationButton),
}

/// The statuses the application can be in, several at a time.
#[derive(Debug, Clone, Copy, Hash, PartialEq, Eq, Structural)]
pub enum Status {
    CommandConfirm,
    DeleteConfirm,
    DockerConnect,
    Error,
    Exec,
    Filter,
    Help,
    Init,
    Logs,
}

/// A set of statuses, one flag each.
#[derive(Debug, Clone, Copy, PartialEq, Eq, Structural)]
pub struct StatusSet {
    command_confirm: bool,
    delete_confirm: bool,
    docker_connect: bool,
    error: bool,
    exec_mode: bool,
    filter: bool,
    help: bool,
    init: bool,
    logs: bool,
}

impl StatusSet {
    /// Whether `s` is in the set.
    pub closed spec fn has(&self, s: Status) -> bool {
        match s {
            Status::CommandConfirm => self.command_confirm,
            Status::DeleteConfirm => self.delete_confirm,
            Status::DockerConnect => self.docker_connect,
            Status::Error => self.error,
            Status::Exec => self.exec_mode,
            Status::Filter => self.filter,
            Status::Help => self.help,
            Status::Init => self.init,
            Status::Logs => self.logs,
        }
    }

    /// The statuses in the set.
    pub open spec fn view(&self) -> Set<Status> {
        Set::new(|s: Status| self.has(s))
    }

    /// The empty set.
    pub fn new() -> (r: Self)
        ensures
            r@ == Set::<Status>::empty(),
    {
        let r = StatusSet {
            command_confirm: false,
            delete_confirm: false,
            docker_connect: false,
            error: false,
            exec_mode: false,
            filter: false,
            help: false,
            init: false,
            logs: false,
        };
        proof {
            assert(r@ =~= Set::<Status>::empty());
        }
        r
    }

    /// Whether `s` is in the set.
    pub fn contains(&self, s: Status) -> (b: bool)
        ensures
            b == self@.contains(s),
    {
        match s {
            Status::CommandConfirm => self.command_confirm,
            Status::DeleteConfirm => self.delete_confirm,
            Status::DockerConnect => self.docker_connect,
            Status::Error => self.error,
            Status::Exec => self.exec_mode,
            Status::Filter => self.filter,
            Status::Help => self.help,
            Status::Init => self.init,
            Status::Logs => self.logs,
        }
    }

    fn set_flag(&mut self, s: Status, v: bool)
        ensures
            final(self)@ == if v {
                old(self)@.insert(s)
            } else {
                old(self)@.remove(s)
            },
    {
        match s {
            Status::CommandConfirm => self.command_confirm = v,
            Status::DeleteConfirm => self.delete_confirm = v,
            Status::DockerConnect => self.docker_connect = v,
            Status::Error => self.error = v,
            Status::Exec => self.exec_mode = v,
            Status::Filter => self.filter = v,
            Status::Help => self.help = v,
            Status::Init => self.init = v,
            Status::Logs => self.logs = v,
        }
        proof {
            if v {
                assert(self@ =~= old(self)@.insert(s));
            } else {
                assert(self@ =~= old(self)@.remove(s));
            }
        }
    }

    /// Add `s` to the set.
    pub fn insert(&mut self, s: Status)
        ensures
            final(self)@ == old(self)@.insert(s),
    {
        self.set_flag(s, true);
    }

    /// Take `s` out of the set.
    pub fn remove(&mut self, s: Status)
        ensures
            final(self)@ == old(self)@.remove(s),
    {
        self.set_flag(s, false);
    }
}

/// Frames of the loading animation.
pub const FRAME_COUNT: u8 = 10;

/// The char shown for frame `i` of the loading animation.
pub open spec fn frame_char(i: nat) -> char {
    if i == 0 {
        '\u{280b}'
    } else if i == 1 {
        '\u{2819}'
    } else if i == 2 {
        '\u{2839}'
    } else if i == 3 {
        '\u{2838}'
    } else if i == 4 {
        '\u{283c}'
    } else if i == 5 {
        '\u{2834}'
    } else if i == 6 {
        '\u{2826}'
    } else if i == 7 {
        '\u{2827}'
    } else if i == 8 {
        '\u{2807}'
    } else {
        '\u{280f}'
    }
}

/// The char of frame `i` of the loading animation.
pub fn frame(i: u8) -> (c: char)
    requires
        i < FRAME_COUNT,
    ensures
        c == frame_char(i as nat),
{
    if i == 0 {
        '\u{280b}'
    } else if i == 1 {
        '\u{2819}'
    } else if i == 2 {
        '\u{2839}'
    } else if i == 3 {
        '\u{2838}'
    } else if i == 4 {
        '\u{283c}'
    } else if i == 5 {
        '\u{2834}'
    } else if i == 6 {
        '\u{2826}'
    } else if i == 7 {
        '\u{2827}'
    } else if i == 8 {
        '\u{2807}'
    } else {
        '\u{280f}'
    }
}

/// How long a tracked loading id is kept before it is dropped as stale, in ms.
pub const LOADING_UUID_MAX_AGE: u64 = 300_000;

/// The largest height of the log panel, in percent.
pub const MAX_LOG_HEIGHT: u16 = 80;

/// Index of a panel in the panel regions.
pub open spec fn panel_index(p: SelectablePanel) -> int {
    match p {
        SelectablePanel::Containers => 0,
        SelectablePanel::Commands => 1,
        SelectablePanel::Logs => 2,
    }
}

/// The panel of a region index.
pub open spec fn panel_at(i: int) -> SelectablePanel {
    if i == 0 {
        SelectablePanel::Containers
    } else if i == 1 {
        SelectablePanel::Commands
    } else {
        SelectablePanel::Logs
    }
}

/// Index of a header in the header regions.
pub open spec fn header_index(h: Header) -> int {
    match h {
        Header::Name => 0,
        Header::State => 1,
        Header::Status => 2,
        Header::Cpu => 3,
        Header::Memory => 4,
        Header::Id => 5,
        Header::Image => 6,
        Header::Rx => 7,
        Header::Tx => 8,
    }
}

/// The header of a region index.
pub open spec fn header_at(i: int) -> Header {
    if i == 0 {
        Header::Name
    } else if i == 1 {
        Header::State
    } else if i == 2 {
        Header::Status
    } else if i == 3 {
        Header::Cpu
    } else if i == 4 {
        Header::Memory
    } else if i == 5 {
        Header::Id
    } else if i == 6 {
        Header::Image
    } else if i == 7 {
        Header::Rx
    } else {
        Header::Tx
    }
}

/// Index of a delete button in the delete regions.
pub open spec fn delete_index(b: DeleteButton) -> int {
    match b {
        DeleteButton::Confirm => 0,
        DeleteButton::Cancel => 1,
    }
}

/// Index of a confirmation button in the confirmation regions.
pub open spec fn confirm_index(b: ConfirmationButton) -> int {
    match b {
        ConfirmationButton::Cancel => 0,
        ConfirmationButton::Confirm => 1,
    }
}

/// Whether the `i`th area is recorded and overlaps `point`.
pub open spec fn hit(areas: Seq<Option<Rect>>, i: int, point: Rect) -> bool {
    0 <= i < areas.len() && areas[i] is Some && overlaps(areas[i]->0, point)
}

/// The first recorded area that overlaps `point`, searching from index `from`.
pub open spec fn first_hit_from(areas: Seq<Option<Rect>>, point: Rect, from: int) -> Option<int>
    decreases areas.len() - from,
{
    if from < 0 || from >= areas.len() {
        None
    } else if hit(areas, from, point) {
        Some(from)
    } else {
        first_hit_from(areas, point, from + 1)
    }
}

/// The first recorded area that overlaps `point`.
pub open spec fn first_hit(areas: Seq<Option<Rect>>, point: Rect) -> Option<int> {
    first_hit_from(areas, point, 0)
}

/// The index of the first recorded area that overlaps `point`.
pub fn find_hit(areas: &Vec<Option<Rect>>, point: Rect) -> (r: Option<usize>)
    ensures
        match r {
            Some(i) => first_hit(areas@, point) == Some(i as int),
            None => first_hit(areas@, point) is None,
        },
{
    let n = areas.len();
    let mut i: usize = n;
    let mut found: Option<usize> = None;
    while i > 0
        invariant
            n == areas@.len(),
            i <= n,
            match found {
                Some(k) => first_hit_from(areas@, point, i as int) == Some(k as int),
                None => first_hit_from(areas@, point, i as int) is None,
            },
        decreases i,
    {
        i = i - 1;
        let h = match areas[i] {
            Some(r) => intersects(r, point),
            None => false,
        };
        if h {
            found = Some(i);
        }
    }
    found
}

/// Whether any recorded area overlaps `point`.
pub proof fn lemma_first_hit(areas: Seq<Option<Rect>>, point: Rect, from: int)
    requires
        0 <= from,
    ensures
        first_hit_from(areas, point, from) is Some ==> ({
            let i = first_hit_from(areas, point, from)->0;
            from <= i && hit(areas, i, point)
        }),
        first_hit_from(areas, point, from) is None ==> forall|j: int|
            from <= j ==> !#[trigger] hit(areas, j, point),
    decreases areas.len() - from,
{
    if from < areas.len() && !hit(areas, from, point) {
        lemma_first_hit(areas, point, from + 1);
    }
}

/// The abstract state of the interface.
#[verifier::ext_equal]
pub struct GuiView {
    pub command_confirm: Option<(DockerCommand, Seq<char>)>,
    pub delete_container: Option<Seq<char>>,
    pub exec_container: Option<Seq<char>>,
    pub confirm_areas: Seq<Option<Rect>>,
    pub delete_areas: Seq<Option<Rect>>,
    pub header_areas: Seq<Option<Rect>>,
    pub help_area: Option<Rect>,
    pub panel_areas: Seq<Option<Rect>>,
    pub loading_index: nat,
    pub loading_set: Set<u128>,
    pub loading_uuids: Map<u128, u64>,
    pub log_height: nat,
    pub redraw: bool,
    pub clear: bool,
    pub selected_panel: SelectablePanel,
    pub screen_width: nat,
    pub show_logs: bool,
    pub status: Set<Status>,
    pub info_box: Option<(Seq<char>, u64)>,
    pub commands_selection: nat,
    pub logs_position: nat,
}

/// `n` recorded-area slots, all empty.
pub open spec fn no_areas(n: nat) -> Seq<Option<Rect>> {
    Seq::new(n, |i: int| None)
}

/// Whether the loading animation or a tracked operation is running.
pub open spec fn view_is_loading(v: GuiView) -> bool {
    v.loading_set != Set::<u128>::empty() || v.loading_uuids != Map::<u128, u64>::empty()
}

/// The state after `status` is taken out of `v`: leaving the command
/// confirmation also drops the pending command and its buttons, leaving exec
/// mode drops the exec container; a redraw is asked for.
pub open spec fn without_status(v: GuiView, status: Status) -> GuiView {
    let v1 = GuiView { status: v.status.remove(status), redraw: true, ..v };
    match status {
        Status::CommandConfirm => GuiView {
            command_confirm: None,
            confirm_areas: no_areas(2),
            ..v1
        },
        Status::Exec => GuiView { exec_container: None, ..v1 },
        _ => v1,
    }
}

/// The state with `area` recorded as the area of `region`.
pub open spec fn with_region(v: GuiView, region: Region, area: Rect) -> GuiView {
    match region {
        Region::Header(h) => GuiView { header_areas: v.header_areas.update(header_index(h), Some(area)), ..v },
        Region::Panel(p) => GuiView { panel_areas: v.panel_areas.update(panel_index(p), Some(area)), ..v },
        Region::Delete(b) => GuiView { delete_areas: v.delete_areas.update(delete_index(b), Some(area)), ..v },
        Region::ConfirmationModal(b) => GuiView {
            confirm_areas: v.confirm_areas.update(confirm_index(b), Some(area)),
            ..v
        },
        Region::HelpPanel => GuiView { help_area: Some(area), ..v },
    }
}

/// The state with `status` added; a redraw is asked for.
pub open spec fn pushed(v: GuiView, status: Status) -> GuiView {
    GuiView { status: v.status.insert(status), redraw: true, ..v }
}

/// The state with the logs panel scrolled up one line, if it can be.
pub open spec fn logs_up(v: GuiView) -> GuiView {
    if v.logs_position > 0 {
        GuiView { logs_position: (v.logs_position - 1) as nat, redraw: true, ..v }
    } else {
        v
    }
}

/// The state with the logs panel scrolled down one line of `max_logs`, if
/// it can be.
pub open spec fn logs_down(v: GuiView, max_logs: nat) -> GuiView {
    if max_logs > 0 && v.logs_position + 1 < max_logs {
        GuiView { logs_position: v.logs_position + 1, redraw: true, ..v }
    } else {
        v
    }
}

/// The state with the next panel selected, skipping the logs when their
/// panel has no height.
pub open spec fn panel_forward(v: GuiView) -> GuiView {
    GuiView {
        selected_panel: {
            let p = panel_after(v.selected_panel);
            if v.log_height == 0 && p == SelectablePanel::Logs {
                panel_after(p)
            } else {
                p
            }
        },
        redraw: true,
        ..v
    }
}

/// The state with the previous panel selected, skipping the logs when
/// their panel has no height.
pub open spec fn panel_backward(v: GuiView) -> GuiView {
    GuiView {
        selected_panel: {
            let p = panel_before(v.selected_panel);
            if v.log_height == 0 && p == SelectablePanel::Logs {
                panel_before(p)
            } else {
                p
            }
        },
        redraw: true,
        ..v
    }
}

/// The state with the logs panel 5 percent higher, while shown and not
/// above 75 percent.
pub open spec fn log_grown(v: GuiView) -> GuiView {
    if v.show_logs && v.log_height <= 75 {
        GuiView { log_height: v.log_height + 5, redraw: true, ..v }
    } else {
        v
    }
}

/// The state with the logs panel 5 percent lower, while shown; at zero
/// height a selected logs panel is hidden and the containers selected.
pub open spec fn log_shrunk(v: GuiView) -> GuiView {
    if v.show_logs {
        let h: nat = if v.log_height >= 5 {
            (v.log_height - 5) as nat
        } else {
            0
        };
        if h == 0 && v.selected_panel == SelectablePanel::Logs {
            GuiView {
                log_height: h,
                show_logs: false,
                selected_panel: SelectablePanel::Containers,
                redraw: true,
                ..v
            }
        } else {
            GuiView { log_height: h, redraw: true, ..v }
        }
    } else {
        v
    }
}

/// The state with the logs panel shown or hidden; hiding a selected logs
/// panel selects the containers.
pub open spec fn logs_toggled(v: GuiView) -> GuiView {
    if v.show_logs && v.selected_panel == SelectablePanel::Logs {
        GuiView { show_logs: false, selected_panel: SelectablePanel::Containers, redraw: true, ..v }
    } else {
        GuiView { show_logs: !v.show_logs, redraw: true, ..v }
    }
}

/// The state with the operation `uuid` added to the loading animation,
/// which moves one frame on.
pub open spec fn loading_started(v: GuiView, uuid: u128) -> GuiView {
    GuiView {
        loading_index: if v.loading_index == FRAME_COUNT - 1 {
            0
        } else {
            v.loading_index + 1
        },
        loading_set: v.loading_set.insert(uuid),
        redraw: true,
        ..v
    }
}

/// The state with the operation `uuid` taken out of the loading animation;
/// the animation goes back to its first frame when nothing is left.
pub open spec fn loading_stopped(v: GuiView, uuid: u128) -> GuiView {
    GuiView {
        loading_set: v.loading_set.remove(uuid),
        loading_index: if v.loading_set.remove(uuid) == Set::<u128>::empty() {
            0
        } else {
            v.loading_index
        },
        redraw: true,
        ..v
    }
}

/// The state showing `text` in the info box from `now`.
pub open spec fn info_shown(v: GuiView, text: Seq<char>, now: u64) -> GuiView {
    GuiView { info_box: Some((text, now)), redraw: true, ..v }
}

/// Global gui state.
#[derive(Debug)]
pub struct GuiState {
    command_confirm: Option<(DockerCommand, ContainerId)>,
    delete_container_id: Option<ContainerId>,
    exec_container_id: Option<ContainerId>,
    intersect_confirm: Vec<Option<Rect>>,
    intersect_delete: Vec<Option<Rect>>,
    intersect_heading: Vec<Option<Rect>>,
    intersect_help: Option<Rect>,
    intersect_panel: Vec<Option<Rect>>,
    loading_index: u8,
    loading_set: IdSet,
    loading_uuids: StampMap,
    log_height: u16,
    redraw: bool,
    clear: bool,
    selected_panel: SelectablePanel,
    screen_width: u16,
    show_logs: bool,
    status: StatusSet,
    info_box_text: Option<(String, u64)>,
    ui_commands_selection: usize,
    ui_logs_position: usize,
}

/// No areas recorded for `n` slots.
fn empty_areas(n: usize) -> (v: Vec<Option<Rect>>)
    ensures
        v@ == no_areas(n as nat),
{
    let mut v: Vec<Option<Rect>> = Vec::new();
    let mut i: usize = 0;
    while i < n
        invariant
            i <= n,
            v@ == no_areas(i as nat),
        decreases n - i,
    {
        v.push(None);
        i = i + 1;
        proof {
            assert(v@ =~= no_areas(i as nat));
        }
    }
    v
}

impl GuiState {
    /// The abstract state.
    pub closed spec fn view(&self) -> GuiView {
        GuiView {
            command_confirm: match self.command_confirm {
                Some((c, id)) => Some((c, id@)),
                None => None,
            },
            delete_container: opt_id_view(self.delete_container_id),
            exec_container: opt_id_view(self.exec_container_id),
            confirm_areas: self.intersect_confirm@,
            delete_areas: self.intersect_delete@,
            header_areas: self.intersect_heading@,
            help_area: self.intersect_help,
            panel_areas: self.intersect_panel@,
            loading_index: self.loading_index as nat,
            loading_set: self.loading_set@,
            loading_uuids: self.loading_uuids@,
            log_height: self.log_height as nat,
            redraw: self.redraw,
            clear: self.clear,
            selected_panel: self.selected_panel,
            screen_width: self.screen_width as nat,
            show_logs: self.show_logs,
            status: self.status@,
            info_box: match self.info_box_text {
                Some((t, at)) => Some((t@, at)),
                None => None,
            },
            commands_selection: self.ui_commands_selection as nat,
            logs_position: self.ui_logs_position as nat,
        }
    }

    /// The state is well formed: fixed region slots, an animation frame in
    /// range, a log panel height of at most 80 percent, and sets without repeats.
    pub closed spec fn wf(&self) -> bool {
        &&& self.intersect_confirm@.len() == 2
        &&& self.intersect_delete@.len() == 2
        &&& self.intersect_heading@.len() == 9
        &&& self.intersect_panel@.len() == 3
        &&& self.loading_index < FRAME_COUNT
        &&& self.log_height <= MAX_LOG_HEIGHT
        &&& self.loading_set.wf()
        &&& self.loading_uuids.wf()
    }

    /// A fresh state: nothing recorded, Containers selected, log panel at 75 percent.
    pub fn new(show_logs: bool) -> (g: Self)
        ensures
            g.wf(),
            g@ == (GuiView {
                command_confirm: None,
                delete_container: None,
                exec_container: None,
                confirm_areas: no_areas(2),
                delete_areas: no_areas(2),
                header_areas: no_areas(9),
                help_area: None,
                panel_areas: no_areas(3),
                loading_index: 0,
                loading_set: Set::empty(),
                loading_uuids: Map::empty(),
                log_height: 75,
                redraw: false,
                clear: false,
                selected_panel: SelectablePanel::Containers,
                screen_width: 0,
                show_logs,
                status: Set::empty(),
                info_box: None,
                commands_selection: 0,
                logs_position: 0,
            }),
    {
        GuiState {
            command_confirm: None,
            delete_container_id: None,
            exec_container_id: None,
            intersect_confirm: empty_areas(2),
            intersect_delete: empty_areas(2),
            intersect_heading: empty_areas(9),
            intersect_help: None,
            intersect_panel: empty_areas(3),
            loading_index: 0,
            loading_set: IdSet::new(),
            loading_uuids: StampMap::new(),
            log_height: 75,
            redraw: false,
            clear: false,
            selected_panel: SelectablePanel::Containers,
            screen_width: 0,
            show_logs,
            status: StatusSet::new(),
            info_box_text: None,
            ui_commands_selection: 0,
            ui_logs_position: 0,
        }
    }

    /// Increase the height of the log panel by 5 percent, when it shows and is
    /// at most 75 percent, and ask for a redraw.
    pub fn log_height_increase(&mut self)
        requires
            old(self).wf(),
        ensures
            final(self).wf(),
            final(self)@ == log_grown(old(self)@),
    {
        if self.show_logs && self.log_height <= 75 {
            self.log_height = self.log_height + 5;
            self.redraw = true;
        }
    }

    /// Reduce the height of the logs panel by 5 percent (not below 0) when it
    /// shows; at 0 with the logs panel selected, hide the logs and select the
    /// containers. Asks for a redraw.
    pub fn log_height_decrease(&mut self)
        requires
            old(self).wf(),
        ensures
            final(self).wf(),
            final(self)@ == log_shrunk(old(self)@),
    {
        if self.show_logs {
            self.log_height = self.log_height.saturating_sub(5);
            if self.log_height == 0 && self.selected_panel == SelectablePanel::Logs {
                self.show_logs = false;
                self.selected_panel = SelectablePanel::Containers;
            }
            self.redraw = true;
        }
    }

    /// Set the screen width.
    pub fn set_screen_width(&mut self, width: u16)
        ensures
            final(self).wf() == old(self).wf(),
            final(self)@ == (GuiView { screen_width: width as nat, ..old(self)@ }),
    {
        self.screen_width = width;
    }

    /// The screen width.
    pub fn get_screen_width(&self) -> (w: u16)
        ensures
            w == self@.screen_width,
    {
        self.screen_width
    }

    /// Whether the logs panel shows.
    pub fn get_show_logs(&self) -> (b: bool)
        ensures
            b == self@.show_logs,
    {
        self.show_logs
    }

    /// Show or hide the logs panel; hiding it while it is selected selects the
    /// containers. Asks for a redraw.
    pub fn toggle_show_logs(&mut self)
        ensures
            final(self).wf() == old(self).wf(),
            final(self)@ == logs_toggled(old(self)@),
    {
        self.show_logs = !self.show_logs;
        if !self.show_logs && self.selected_panel == SelectablePanel::Logs {
            self.selected_panel = SelectablePanel::Containers;
        }
        self.redraw = true;
    }

    /// Set the log height to zero.
    pub fn log_height_zero(&mut self)
        ensures
            old(self).wf() ==> final(self).wf(),
            final(self)@ == (GuiView { log_height: 0, ..old(self)@ }),
    {
        self.log_height = 0;
    }

    /// The height of the logs panel, in percent.
    pub fn get_log_height(&self) -> (h: u16)
        ensures
            h == self@.log_height,
    {
        self.log_height
    }

    /// Forget the recorded panel areas.
    pub fn clear_area_map(&mut self)
        requires
            old(self).wf(),
        ensures
            final(self).wf(),
            final(self)@ == (GuiView { panel_areas: no_areas(3), ..old(self)@ }),
    {
        self.intersect_panel = empty_areas(3);
    }

    /// Ask for the screen to be cleared and redrawn.
    pub fn set_clear(&mut self)
        ensures
            final(self).wf() == old(self).wf(),
            final(self)@ == (GuiView { clear: true, ..old(self)@ }),
    {
        self.clear = true;
    }

    /// Whether a redraw was asked for; the request is taken.
    pub fn take_redraw(&mut self) -> (b: bool)
        ensures
            final(self).wf() == old(self).wf(),
            b == old(self)@.redraw,
            final(self)@ == (GuiView { redraw: false, ..old(self)@ }),
    {
        let b = self.redraw;
        self.redraw = false;
        b
    }

    /// Whether a clear was asked for; the request is taken.
    pub fn take_clear(&mut self) -> (b: bool)
        ensures
            final(self).wf() == old(self).wf(),
            b == old(self)@.clear,
            final(self)@ == (GuiView { clear: false, ..old(self)@ }),
    {
        let b = self.clear;
        self.clear = false;
        b
    }

    /// The selected panel.
    pub fn get_selected_panel(&self) -> (p: SelectablePanel)
        ensures
            p == self@.selected_panel,
    {
        self.selected_panel
    }

    /// Select the first panel whose recorded area overlaps `rect` (a clicked
    /// cell) and ask for a redraw; nothing changes when none does.
    pub fn check_panel_intersect(&mut self, rect: Rect)
        requires
            old(self).wf(),
        ensures
            final(self).wf(),
            final(self)@ == match first_hit(old(self)@.panel_areas, rect) {
                Some(i) => GuiView { selected_panel: panel_at(i), redraw: true, ..old(self)@ },
                None => old(self)@,
            },
    {
        if let Some(i) = find_hit(&self.intersect_panel, rect) {
            self.selected_panel = if i == 0 {
                SelectablePanel::Containers
            } else if i == 1 {
                SelectablePanel::Commands
            } else {
                SelectablePanel::Logs
            };
            self.redraw = true;
        }
    }

    /// The first delete button whose recorded area overlaps `rect`.
    pub fn get_intersect_button(&self, rect: Rect) -> (b: Option<DeleteButton>)
        requires
            self.wf(),
        ensures
            b == match first_hit(self@.delete_areas, rect) {
                Some(i) => Some(if i == 0 { DeleteButton::Confirm } else { DeleteButton::Cancel }),
                None => None,
            },
    {
        match find_hit(&self.intersect_delete, rect) {
            Some(i) => Some(if i == 0 { DeleteButton::Confirm } else { DeleteButton::Cancel }),
            None => None,
        }
    }

    /// The first confirmation button whose recorded area overlaps `rect`.
    pub fn get_intersect_confirm(&self, rect: Rect) -> (b: Option<ConfirmationButton>)
        requires
            self.wf(),
        ensures
            b == match first_hit(self@.confirm_areas, rect) {
                Some(i) => Some(
                    if i == 0 { ConfirmationButton::Cancel } else { ConfirmationButton::Confirm },
                ),
                None => None,
            },
    {
        match find_hit(&self.intersect_confirm, rect) {
            Some(i) => Some(
                if i == 0 { ConfirmationButton::Cancel } else { ConfirmationButton::Confirm },
            ),
            None => None,
        }
    }

    /// The first header whose recorded area overlaps `rect`.
    pub fn get_intersect_header(&self, rect: Rect) -> (h: Option<Header>)
        requires
            self.wf(),
        ensures
            h == match first_hit(self@.header_areas, rect) {
                Some(i) => Some(header_at(i)),
                None => None,
            },
    {
        match find_hit(&self.intersect_heading, rect) {
            Some(i) => Some(
                if i == 0 {
                    Header::Name
                } else if i == 1 {
                    Header::State
                } else if i == 2 {
                    Header::Status
                } else if i == 3 {
                    Header::Cpu
                } else if i == 4 {
                    Header::Memory
                } else if i == 5 {
                    Header::Id
                } else if i == 6 {
                    Header::Image
                } else if i == 7 {
                    Header::Rx
                } else {
                    Header::Tx
                },
            ),
            None => None,
        }
    }

    /// Whether the "show/hide help" area overlaps `rect`.
    pub fn get_intersect_help(&self, rect: Rect) -> (b: bool)
        ensures
            b == (self@.help_area is Some && overlaps(self@.help_area->0, rect)),
    {
        match self.intersect_help {
            Some(r) => intersects(r, rect),
            None => false,
        }
    }

    /// Record (or replace) the area of a clickable region.
    #[verifier::rlimit(50)]
    pub fn update_region_map(&mut self, region: Region, area: Rect)
        requires
            old(self).wf(),
        ensures
            final(self).wf(),
            final(self)@ == with_region(old(self)@, region, area),
    {
        match region {
            Region::Header(h) => {
                let i: usize = match h {
                    Header::Name => 0,
                    Header::State => 1,
                    Header::Status => 2,
                    Header::Cpu => 3,
                    Header::Memory => 4,
                    Header::Id => 5,
                    Header::Image => 6,
                    Header::Rx => 7,
                    Header::Tx => 8,
                };
                self.intersect_heading.set(i, Some(area));
            },
            Region::Panel(p) => {
                let i: usize = match p {
                    SelectablePanel::Containers => 0,
                    SelectablePanel::Commands => 1,
                    SelectablePanel::Logs => 2,
                };
                self.intersect_panel.set(i, Some(area));
            },
            Region::Delete(b) => {
                let i: usize = match b {
                    DeleteButton::Confirm => 0,
                    DeleteButton::Cancel => 1,
                };
                self.intersect_delete.set(i, Some(area));
            },
            Region::ConfirmationModal(b) => {
                let i: usize = match b {
                    ConfirmationButton::Cancel => 0,
                    ConfirmationButton::Confirm => 1,
                };
                self.intersect_confirm.set(i, Some(area));
            },
            Region::HelpPanel => {
                self.intersect_help = Some(area);
            },
        }
    }

    /// The container waiting for a delete confirmation, if any.
    pub fn get_delete_container(&self) -> (c: Option<ContainerId>)
        ensures
            opt_id_view(c) == self@.delete_container,
    {
        match &self.delete_container_id {
            Some(id) => Some(id.duplicate()),
            None => None,
        }
    }

    /// Set or clear the container waiting for a delete confirmation: setting
    /// adds the DeleteConfirm status, clearing forgets the delete buttons and
    /// takes the status out. Asks for a redraw.
    pub fn set_delete_container(&mut self, id: Option<ContainerId>)
        requires
            old(self).wf(),
        ensures
            final(self).wf(),
            final(self)@ == if id is Some {
                GuiView {
                    status: old(self)@.status.insert(Status::DeleteConfirm),
                    delete_container: opt_id_view(id),
                    redraw: true,
                    ..old(self)@
                }
            } else {
                GuiView {
                    delete_container: None,
                    ..without_status(
                        GuiView { delete_areas: no_areas(2), ..old(self)@ },
                        Status::DeleteConfirm,
                    )
                }
            },
    {
        if id.is_some() {
            self.status.insert(Status::DeleteConfirm);
        } else {
            self.intersect_delete = empty_areas(2);
            self.status_del(Status::DeleteConfirm);
        }
        self.delete_container_id = id;
        self.redraw = true;
    }

    /// The command waiting for confirmation and its container, if any.
    pub fn get_command_confirm(&self) -> (c: Option<(DockerCommand, ContainerId)>)
        ensures
            match c {
                Some((cmd, id)) => self@.command_confirm == Some((cmd, id@)),
                None => self@.command_confirm is None,
            },
    {
        match &self.command_confirm {
            Some((cmd, id)) => Some((*cmd, id.duplicate())),
            None => None,
        }
    }

    /// Set or clear the command waiting for confirmation: setting adds the
    /// CommandConfirm status, clearing forgets the buttons and takes the status
    /// out. Asks for a redraw.
    pub fn set_command_confirm(&mut self, confirm: Option<(DockerCommand, ContainerId)>)
        requires
            old(self).wf(),
        ensures
            final(self).wf(),
            final(self)@ == match confirm {
                Some((cmd, id)) => GuiView {
                    status: old(self)@.status.insert(Status::CommandConfirm),
                    command_confirm: Some((cmd, id@)),
                    redraw: true,
                    ..old(self)@
                },
                None => without_status(old(self)@, Status::CommandConfirm),
            },
    {
        if confirm.is_some() {
            self.status.insert(Status::CommandConfirm);
        } else {
            self.intersect_confirm = empty_areas(2);
            self.status_del(Status::CommandConfirm);
        }
        self.command_confirm = confirm;
        self.redraw = true;
    }

    /// The current statuses.
    pub fn get_status(&self) -> (s: StatusSet)
        ensures
            s@ == self@.status,
    {
        self.status
    }

    /// Take a status out (see `without_status`).
    pub fn status_del(&mut self, status: Status)
        requires
            old(self).wf(),
        ensures
            final(self).wf(),
            final(self)@ == without_status(old(self)@, status),
    {
        self.status.remove(status);
        match status {
            Status::CommandConfirm => {
                self.command_confirm = None;
                self.intersect_confirm = empty_areas(2);
            },
            Status::DeleteConfirm => {
                self.status.remove(Status::DeleteConfirm);
            },
            Status::Exec => {
                self.exec_container_id = None;
            },
            _ => {},
        }
        self.redraw = true;
        proof {
            assert(self@ =~= without_status(old(self)@, status));
        }
    }

    /// Set the exec container.
    pub fn set_exec_container_id(&mut self, id: Option<ContainerId>)
        ensures
            final(self).wf() == old(self).wf(),
            final(self)@ == (GuiView { exec_container: opt_id_view(id), ..old(self)@ }),
    {
        self.exec_container_id = id;
    }

    /// The exec container, if any.
    pub fn get_exec_container_id(&self) -> (c: Option<ContainerId>)
        ensures
            opt_id_view(c) == self@.exec_container,
    {
        match &self.exec_container_id {
            Some(id) => Some(id.duplicate()),
            None => None,
        }
    }

    /// Add a status and ask for a redraw.
    pub fn status_push(&mut self, status: Status)
        ensures
            final(self).wf() == old(self).wf(),
            final(self)@ == pushed(old(self)@, status),
    {
        self.status.insert(status);
        self.redraw = true;
    }

    /// Select the next panel, skipping the logs when their height is 0; asks for
    /// a redraw.
    pub fn selectable_panel_next(&mut self)
        ensures
            final(self).wf() == old(self).wf(),
            final(self)@ == panel_forward(old(self)@),
    {
        self.selected_panel = self.selected_panel.next();
        if self.log_height == 0 && self.selected_panel == SelectablePanel::Logs {
            self.selected_panel = self.selected_panel.next();
        }
        self.redraw = true;
    }

    /// Select the previous panel, skipping the logs when their height is 0;
    /// asks for a redraw.
    pub fn selectable_panel_previous(&mut self)
        ensures
            final(self).wf() == old(self).wf(),
            final(self)@ == panel_backward(old(self)@),
    {
        self.selected_panel = self.selected_panel.prev();
        if self.log_height == 0 && self.selected_panel == SelectablePanel::Logs {
            self.selected_panel = self.selected_panel.prev();
        }
        self.redraw = true;
    }

    /// Advance the loading animation by one frame (after the last frame comes
    /// the first), add `uuid` to the animated operations, and ask for a redraw.
    pub fn next_loading(&mut self, uuid: u128)
        requires
            old(self).wf(),
        ensures
            final(self).wf(),
            final(self)@ == (GuiView {
                loading_index: if old(self)@.loading_index == FRAME_COUNT - 1 {
                    0
                } else {
                    old(self)@.loading_index + 1
                },
                loading_set: old(self)@.loading_set.insert(uuid),
                redraw: true,
                ..old(self)@
            }),
    {
        if self.loading_index == FRAME_COUNT - 1 {
            self.loading_index = 0;
        } else {
            self.loading_index = self.loading_index + 1;
        }
        self.loading_set.insert(uuid);
        self.redraw = true;
    }

    /// Whether an animated or a tracked operation is running.
    pub fn is_loading(&self) -> (b: bool)
        requires
            self.wf(),
        ensures
            b == view_is_loading(self@),
    {
        !self.loading_set.is_empty() || !self.loading_uuids.is_empty()
    }

    /// The char of the current animation frame while loading, else a space.
    pub fn get_loading(&self) -> (c: char)
        requires
            self.wf(),
        ensures
            c == if view_is_loading(self@) {
                frame_char(self@.loading_index)
            } else {
                ' '
            },
    {
        if self.is_loading() {
            frame(self.loading_index)
        } else {
            ' '
        }
    }

    /// Start the animation for `uuid`: returns whether nothing was loading
    /// before (so the caller has to start the timer that calls
    /// `next_loading`), then advances one frame with `uuid` added.
    pub fn start_loading_animation(&mut self, uuid: u128) -> (start_timer: bool)
        requires
            old(self).wf(),
        ensures
            final(self).wf(),
            start_timer == !view_is_loading(old(self)@),
            final(self)@ == loading_started(old(self)@, uuid),
    {
        let start_timer = !self.is_loading();
        self.next_loading(uuid);
        start_timer
    }

    /// Stop the animation for `uuid` and ask for a redraw; when no animated
    /// operation is left the frame goes back to the first and the result is
    /// true (the caller stops the timer).
    pub fn stop_loading_animation(&mut self, uuid: u128) -> (stop_timer: bool)
        requires
            old(self).wf(),
        ensures
            final(self).wf(),
            stop_timer == (old(self)@.loading_set.remove(uuid) == Set::<u128>::empty()),
            final(self)@ == loading_stopped(old(self)@, uuid),
    {
        self.loading_set.remove(uuid);
        self.redraw = true;
        if self.loading_set.is_empty() {
            self.loading_index = 0;
            true
        } else {
            false
        }
    }

    /// Track the operation `uuid`, started at `now` (ms), drop the tracked
    /// operations started more than five minutes before `now`, and ask for a
    /// redraw.
    pub fn add_loading_uuid(&mut self, uuid: u128, now: u64)
        requires
            old(self).wf(),
        ensures
            final(self).wf(),
            final(self)@ == (GuiView {
                loading_uuids: map_where(
                    old(self)@.loading_uuids.insert(uuid, now),
                    |e: (u128, u64)| stamp_age(e.1, now) <= LOADING_UUID_MAX_AGE,
                ),
                redraw: true,
                ..old(self)@
            }),
    {
        self.loading_uuids.insert(uuid, now);
        self.cleanup_old_loading_uuids(now);
        self.redraw = true;
    }

    /// Stop tracking the operation `uuid` and ask for a redraw.
    pub fn remove_loading_uuid(&mut self, uuid: u128)
        requires
            old(self).wf(),
        ensures
            final(self).wf(),
            final(self)@ == (GuiView {
                loading_uuids: old(self)@.loading_uuids.remove(uuid),
                redraw: true,
                ..old(self)@
            }),
    {
        self.loading_uuids.remove(uuid);
        self.redraw = true;
    }

    /// Drop the tracked operations started more than five minutes before `now`.
    fn cleanup_old_loading_uuids(&mut self, now: u64)
        requires
            old(self).wf(),
        ensures
            final(self).wf(),
            final(self)@ == (GuiView {
                loading_uuids: map_where(
                    old(self)@.loading_uuids,
                    |e: (u128, u64)| stamp_age(e.1, now) <= LOADING_UUID_MAX_AGE,
                ),
                ..old(self)@
            }),
    {
        let _expired = self.loading_uuids.remove_older_than(now, LOADING_UUID_MAX_AGE);
    }

    /// Whether the operation `uuid` is tracked.
    pub fn is_uuid_loading(&self, uuid: u128) -> (b: bool)
        ensures
            b == self@.loading_uuids.contains_key(uuid),
    {
        self.loading_uuids.contains_key(uuid)
    }

    /// The number of tracked operations.
    pub fn loading_uuid_count(&self) -> (n: usize)
        requires
            self.wf(),
        ensures
            n == self@.loading_uuids.dom().len(),
    {
        self.loading_uuids.len()
    }

    /// Show `text` in the info box from `now` (ms) and ask for a redraw.
    pub fn set_info_box(&mut self, text: &str, now: u64)
        ensures
            final(self).wf() == old(self).wf(),
            final(self)@ == info_shown(old(self)@, text@, now),
    {
        self.info_box_text = Some((text.to_owned(), now));
        self.redraw = true;
    }

    /// The info box text and when it was set, if any.
    pub fn info_box(&self) -> (r: Option<(String, u64)>)
        ensures
            match r {
                Some((t, at)) => self@.info_box == Some((t@, at)),
                None => self@.info_box is None,
            },
    {
        match &self.info_box_text {
            Some((t, at)) => Some((t.clone(), *at)),
            None => None,
        }
    }

    /// Remove the info box and ask for a redraw.
    pub fn reset_info_box(&mut self)
        ensures
            final(self).wf() == old(self).wf(),
            final(self)@ == (GuiView { info_box: None, redraw: true, ..old(self)@ }),
    {
        self.info_box_text = None;
        self.redraw = true;
    }

    /// Ask for a redraw.
    pub fn force_redraw(&mut self)
        ensures
            final(self).wf() == old(self).wf(),
            final(self)@ == (GuiView { redraw: true, ..old(self)@ }),
    {
        self.redraw = true;
    }

    /// The selected entry of the commands list.
    pub fn get_ui_commands_selection(&self) -> (n: usize)
        ensures
            n == self@.commands_selection,
    {
        self.ui_commands_selection
    }

    /// Select entry `index` of the commands list and ask for a redraw.
    pub fn set_ui_commands_selection(&mut self, index: usize)
        ensures
            final(self).wf() == old(self).wf(),
            final(self)@ == (GuiView {
                commands_selection: index as nat,
                redraw: true,
                ..old(self)@
            }),
    {
        self.ui_commands_selection = index;
        self.redraw = true;
    }

    /// Move the commands selection up one of `max_items`, from the first to the
    /// last; nothing happens for an empty list.
    pub fn scroll_ui_commands_up(&mut self, max_items: usize)
        ensures
            final(self).wf() == old(self).wf(),
            final(self)@ == if max_items > 0 {
                GuiView {
                    commands_selection: if old(self)@.commands_selection == 0 {
                        (max_items - 1) as nat
                    } else {
                        (old(self)@.commands_selection - 1) as nat
                    },
                    redraw: true,
                    ..old(self)@
                }
            } else {
                old(self)@
            },
    {
        if max_items > 0 {
            self.ui_commands_selection = if self.ui_commands_selection == 0 {
                max_items - 1
            } else {
                self.ui_commands_selection - 1
            };
            self.redraw = true;
        }
    }

    /// Move the commands selection down one of `max_items`, from the last to
    /// the first; nothing happens for an empty list.
    pub fn scroll_ui_commands_down(&mut self, max_items: usize)
        requires
            max_items > 0 ==> old(self)@.commands_selection < usize::MAX,
        ensures
            final(self).wf() == old(self).wf(),
            final(self)@ == if max_items > 0 {
                GuiView {
                    commands_selection: ((old(self)@.commands_selection + 1) % (max_items as nat)) as nat,
                    redraw: true,
                    ..old(self)@
                }
            } else {
                old(self)@
            },
    {
        if max_items > 0 {
            self.ui_commands_selection = (self.ui_commands_selection + 1) % max_items;
            self.redraw = true;
        }
    }

    /// The selected line of the logs.
    pub fn get_ui_logs_position(&self) -> (n: usize)
        ensures
            n == self@.logs_position,
    {
        self.ui_logs_position
    }

    /// Select line `position` of the logs and ask for a redraw.
    pub fn set_ui_logs_position(&mut self, position: usize)
        ensures
            final(self).wf() == old(self).wf(),
            final(self)@ == (GuiView {
                logs_position: position as nat,
                redraw: true,
                ..old(self)@
            }),
    {
        self.ui_logs_position = position;
        self.redraw = true;
    }

    /// Move the logs selection up one line, stopping at the first.
    pub fn scroll_ui_logs_up(&mut self, _max_logs: usize)
        ensures
            final(self).wf() == old(self).wf(),
            final(self)@ == logs_up(old(self)@),
    {
        if self.ui_logs_position > 0 {
            self.ui_logs_position = self.ui_logs_position - 1;
            self.redraw = true;
        }
    }

    /// Move the logs selection down one line, stopping at the last of `max_logs`.
    pub fn scroll_ui_logs_down(&mut self, max_logs: usize)
        ensures
            final(self).wf() == old(self).wf(),
            final(self)@ == logs_down(old(self)@, max_logs as nat),
    {
        if max_logs > 0 && self.ui_logs_position < max_logs - 1 {
            self.ui_logs_position = self.ui_logs_position + 1;
            self.redraw = true;
        }
    }
}

/// Tracking an operation and then stopping it leaves it untracked, and
/// keeps exactly the other tracked operations that were not stale.
pub proof fn law_loading_uuid_add_remove(g: GuiView, uuid: u128, now: u64)
    ensures
        ({
            let added = map_where(
                g.loading_uuids.insert(uuid, now),
                |e: (u128, u64)| stamp_age(e.1, now) <= LOADING_UUID_MAX_AGE,
            );
            let after = added.remove(uuid);
            &&& added.contains_key(uuid)
            &&& !after.contains_key(uuid)
            &&& forall|k: u128|
                k != uuid ==> (#[trigger] after.contains_key(k) <==> (g.loading_uuids.contains_key(k)
                    && stamp_age(g.loading_uuids[k], now) <= LOADING_UUID_MAX_AGE))
        }),
{
}

} // verus!
