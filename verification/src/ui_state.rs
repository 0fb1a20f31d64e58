//! The containers as the interface holds them: the list with its selection,
//! the commands offered for the selected container, its logs, and the filter.
use vstd::prelude::*;
use std::collections::VecDeque;
use crate::model::{
    commands_for, duplicate_ports, opt_id_view, ports_view, ContainerId, ContainerPorts, DockerCommand, Header,
    PortView, RunningState, State,
};
use crate::text::{has_substring, pop_char, str_contains, text_eq};
use crate::fmt::push_char;

verus! {

/// A list with an optional selected position.
#[derive(Debug)]
pub struct SelectList<T> {
    pub items: Vec<T>,
    pub selected: Option<usize>,
}

/// The selection after moving down in a list of `len` items: the first item
/// when nothing was selected, else one further, stopping at the last.
pub open spec fn sel_next(sel: Option<usize>, len: nat) -> Option<usize> {
    if len == 0 {
        sel
    } else {
        match sel {
            None => Some(0),
            Some(i) => if i + 1 < len {
                Some((i + 1) as usize)
            } else {
                Some(i)
            },
        }
    }
}

/// The selection after moving up: the first item when nothing was selected,
/// else one back, stopping at the first.
pub open spec fn sel_prev(sel: Option<usize>, len: nat) -> Option<usize> {
    if len == 0 {
        sel
    } else {
        match sel {
            None => Some(0),
            Some(i) => if i == 0 {
                Some(0)
            } else {
                Some((i - 1) as usize)
            },
        }
    }
}

/// The selection after going to the end: the last item, if any.
pub open spec fn sel_end(sel: Option<usize>, len: nat) -> Option<usize> {
    if len == 0 {
        sel
    } else {
        Some((len - 1) as usize)
    }
}

impl<T> SelectList<T> {
    /// A list of `items` with nothing selected.
    pub fn new(items: Vec<T>) -> (l: Self)
        ensures
            l.items@ == items@,
            l.selected is None,
    {
        SelectList { items, selected: None }
    }

    /// Move the selection down.
    pub fn next(&mut self)
        ensures
            final(self).items@ == old(self).items@,
            final(self).selected == sel_next(old(self).selected, old(self).items@.len()),
    {
        let len = self.items.len();
        if len > 0 {
            self.selected = Some(
                match self.selected {
                    None => 0,
                    Some(i) => if i < len - 1 {
                        i + 1
                    } else {
                        i
                    },
                },
            );
        }
    }

    /// Move the selection up.
    pub fn previous(&mut self)
        ensures
            final(self).items@ == old(self).items@,
            final(self).selected == sel_prev(old(self).selected, old(self).items@.len()),
    {
        if self.items.len() > 0 {
            self.selected = Some(
                match self.selected {
                    None => 0,
                    Some(i) => if i == 0 {
                        0
                    } else {
                        i - 1
                    },
                },
            );
        }
    }

    /// Select the first item.
    pub fn start(&mut self)
        ensures
            final(self).items@ == old(self).items@,
            final(self).selected == Some(0usize),
    {
        self.selected = Some(0);
    }

    /// Select the last item, if any.
    pub fn end(&mut self)
        ensures
            final(self).items@ == old(self).items@,
            final(self).selected == sel_end(old(self).selected, old(self).items@.len()),
    {
        let len = self.items.len();
        if len > 0 {
            self.selected = Some(len - 1);
        }
    }
}

/// Stepping down then up from an item that is not the last returns to it.
pub proof fn law_next_prev(i: usize, len: nat)
    requires
        i + 1 < len,
        len <= usize::MAX,
    ensures
        sel_prev(sel_next(Some(i), len), len) == Some(i),
{
}

/// A container as the interface shows it. CPU samples are the bit patterns
/// of the `f64` percentages; the other samples are byte counts.
#[derive(Debug)]
pub struct ContainerItem {
    pub created: u64,
    pub id: ContainerId,
    pub image: String,
    pub is_oxker: bool,
    pub name: String,
    pub ports: Vec<ContainerPorts>,
    pub state: State,
    pub status: String,
    pub cpu_stats: VecDeque<u64>,
    pub mem_stats: VecDeque<u64>,
    pub mem_limit: u64,
    pub rx: u64,
    pub tx: u64,
}

/// The plain values of a container.
pub struct ContainerItemView {
    pub created: u64,
    pub id: Seq<char>,
    pub image: Seq<char>,
    pub is_oxker: bool,
    pub name: Seq<char>,
    pub ports: Seq<PortView>,
    pub state: State,
    pub status: Seq<char>,
    pub cpu_stats: Seq<u64>,
    pub mem_stats: Seq<u64>,
    pub mem_limit: u64,
    pub rx: u64,
    pub tx: u64,
}

impl View for ContainerItem {
    type V = ContainerItemView;

    open spec fn view(&self) -> ContainerItemView {
        ContainerItemView {
            created: self.created,
            id: self.id@,
            image: self.image@,
            is_oxker: self.is_oxker,
            name: self.name@,
            ports: ports_view(self.ports@),
            state: self.state,
            status: self.status@,
            cpu_stats: self.cpu_stats@,
            mem_stats: self.mem_stats@,
            mem_limit: self.mem_limit,
            rx: self.rx,
            tx: self.tx,
        }
    }
}

/// The plain values of a list of containers.
pub open spec fn items_view(s: Seq<ContainerItem>) -> Seq<ContainerItemView> {
    s.map_values(|c: ContainerItem| c@)
}

/// A copy of a queue of samples.
pub fn copy_samples(d: &VecDeque<u64>) -> (r: VecDeque<u64>)
    ensures
        r@ == d@,
{
    let mut r: VecDeque<u64> = VecDeque::new();
    let mut i: usize = 0;
    while i < d.len()
        invariant
            i <= d@.len(),
            r@ == d@.take(i as int),
        decreases d@.len() - i,
    {
        r.push_back(d[i]);
        proof {
            assert(d@.take(i + 1) =~= d@.take(i as int).push(d@[i as int]));
        }
        i = i + 1;
    }
    proof {
        assert(d@.take(d@.len() as int) =~= d@);
    }
    r
}

impl ContainerItem {
    /// A container seen for the first time, with no samples yet.
    pub fn new(
        created: u64,
        id: ContainerId,
        image: String,
        is_oxker: bool,
        name: String,
        ports: Vec<ContainerPorts>,
        state: State,
        status: String,
    ) -> (c: Self)
        ensures
            c@ == (ContainerItemView {
                created,
                id: id@,
                image: image@,
                is_oxker,
                name: name@,
                ports: ports_view(ports@),
                state,
                status: status@,
                cpu_stats: Seq::empty(),
                mem_stats: Seq::empty(),
                mem_limit: 0,
                rx: 0,
                tx: 0,
            }),
    {
        ContainerItem {
            created,
            id,
            image,
            is_oxker,
            name,
            ports,
            state,
            status,
            cpu_stats: VecDeque::new(),
            mem_stats: VecDeque::new(),
            mem_limit: 0,
            rx: 0,
            tx: 0,
        }
    }

    /// A copy of the container.
    pub fn duplicate(&self) -> (c: Self)
        ensures
            c@ == self@,
    {
        ContainerItem {
            created: self.created,
            id: self.id.duplicate(),
            image: self.image.clone(),
            is_oxker: self.is_oxker,
            name: self.name.clone(),
            ports: duplicate_ports(&self.ports),
            state: self.state,
            status: self.status.clone(),
            cpu_stats: copy_samples(&self.cpu_stats),
            mem_stats: copy_samples(&self.mem_stats),
            mem_limit: self.mem_limit,
            rx: self.rx,
            tx: self.tx,
        }
    }
}

/// A container as a list update from the core describes it.
#[derive(Debug)]
pub struct EventContainerItem {
    pub id: String,
    pub name: String,
    pub image: String,
    pub state: String,
    pub status: String,
    pub ports: Vec<ContainerPorts>,
}

/// The plain values of a container update.
pub struct EventView {
    pub id: Seq<char>,
    pub name: Seq<char>,
    pub image: Seq<char>,
    pub state: Seq<char>,
    pub status: Seq<char>,
    pub ports: Seq<PortView>,
}

impl View for EventContainerItem {
    type V = EventView;

    open spec fn view(&self) -> EventView {
        EventView {
            id: self.id@,
            name: self.name@,
            image: self.image@,
            state: self.state@,
            status: self.status@,
            ports: ports_view(self.ports@),
        }
    }
}

/// The plain values of a list of container updates.
pub open spec fn events_view(s: Seq<EventContainerItem>) -> Seq<EventView> {
    s.map_values(|e: EventContainerItem| e@)
}

/// New samples for a container. `cpu_usage` is the bit pattern of the `f64`
/// percentage.
#[derive(Debug, Clone, Copy)]
pub struct EventStats {
    pub cpu_usage: u64,
    pub memory_usage: u64,
    pub memory_limit: u64,
    pub network_rx: u64,
    pub network_tx: u64,
}

/// A line of a container's log.
#[derive(Debug, Clone)]
pub struct LogLine {
    pub message: String,
}

/// The state of a container from Docker's state and status texts: a running
/// container is unhealthy when its status says "(unhealthy)".
pub open spec fn parse_state(state: Seq<char>, status: Seq<char>) -> State {
    if state == "dead"@ {
        State::Dead
    } else if state == "exited"@ {
        State::Exited
    } else if state == "paused"@ {
        State::Paused
    } else if state == "removing"@ {
        State::Removing
    } else if state == "restarting"@ {
        State::Restarting
    } else if state == "running"@ {
        if has_substring(status, "(unhealthy)"@) {
            State::Running(RunningState::Unhealthy)
        } else {
            State::Running(RunningState::Healthy)
        }
    } else {
        State::Unknown
    }
}

/// The state of a container from Docker's state and status texts.
pub fn state_from(state: &str, status: &str) -> (s: State)
    ensures
        s == parse_state(state@, status@),
{
    if text_eq(state, "dead") {
        State::Dead
    } else if text_eq(state, "exited") {
        State::Exited
    } else if text_eq(state, "paused") {
        State::Paused
    } else if text_eq(state, "removing") {
        State::Removing
    } else if text_eq(state, "restarting") {
        State::Restarting
    } else if text_eq(state, "running") {
        if str_contains(status, "(unhealthy)") {
            State::Running(RunningState::Unhealthy)
        } else {
            State::Running(RunningState::Healthy)
        }
    } else {
        State::Unknown
    }
}

/// The last container in `items` with the id `id`.
pub open spec fn last_with_id(items: Seq<ContainerItemView>, id: Seq<char>) -> Option<int>
    decreases items.len(),
{
    if items.len() == 0 {
        None
    } else if items.last().id == id {
        Some(items.len() - 1)
    } else {
        last_with_id(items.drop_last(), id)
    }
}

/// The first container in `items` with the id `id`.
pub open spec fn first_with_id(items: Seq<ContainerItemView>, id: Seq<char>) -> Option<int> {
    if exists|k: int| 0 <= k < items.len() && items[k].id == id {
        Some(
            choose|k: int|
                0 <= k < items.len() && items[k].id == id && forall|m: int|
                    0 <= m < k ==> items[m].id != id,
        )
    } else {
        None
    }
}

/// An earlier update in the list has the same id as update `i`.
pub open spec fn claimed_before(ecs: Seq<EventView>, i: int) -> bool {
    exists|j: int| 0 <= j < i && ecs[j].id == ecs[i].id
}

/// Container `i` after a list update: an already known container (the last
/// one with that id, unless an earlier update took it) keeps its samples and
/// takes the new name, image, status, ports and state; else a new container
/// is made, created at `i`.
pub open spec fn merged(old: Seq<ContainerItemView>, ecs: Seq<EventView>, i: int) -> ContainerItemView {
    let ec = ecs[i];
    let found = if claimed_before(ecs, i) {
        None
    } else {
        last_with_id(old, ec.id)
    };
    match found {
        Some(j) => ContainerItemView {
            name: ec.name,
            image: ec.image,
            status: ec.status,
            ports: ec.ports,
            state: parse_state(ec.state, ec.status),
            ..old[j]
        },
        None => ContainerItemView {
            created: i as u64,
            id: ec.id,
            image: ec.image,
            is_oxker: false,
            name: ec.name,
            ports: ec.ports,
            state: parse_state(ec.state, ec.status),
            status: ec.status,
            cpu_stats: Seq::empty(),
            mem_stats: Seq::empty(),
            mem_limit: 0,
            rx: 0,
            tx: 0,
        },
    }
}

/// The id of the selected container, if the selection is on a container.
pub open spec fn selected_id(items: Seq<ContainerItemView>, sel: Option<usize>) -> Option<Seq<char>> {
    match sel {
        Some(i) => if i < items.len() {
            Some(items[i as int].id)
        } else {
            None
        },
        None => None,
    }
}

/// The selection after the list changed from one holding the container
/// `old_id` (if any): the same container when it is still there, else the
/// first container, else the selection is kept.
pub open spec fn reselect(items: Seq<ContainerItemView>, old_id: Option<Seq<char>>, sel: Option<usize>) -> Option<usize> {
    match old_id {
        Some(id) => match first_with_id(items, id) {
            Some(k) => Some(k as usize),
            None => if items.len() > 0 {
                Some(0usize)
            } else {
                sel
            },
        },
        None => if items.len() > 0 {
            Some(0usize)
        } else {
            sel
        },
    }
}

/// The first position of `x` in `s`, where `s` holds it.
pub open spec fn first_index_of<A>(s: Seq<A>, x: A) -> int {
    choose|k: int| 0 <= k < s.len() && s[k] == x && forall|m: int| 0 <= m < k ==> s[m] != x
}

/// The commands offered, and their selection, once the container selection
/// is `sel`: the commands for the selected container's state, keeping the
/// selected command when it is still offered, else the first.
pub open spec fn commands_after(
    items: Seq<ContainerItemView>,
    sel: Option<usize>,
    cmds: Seq<DockerCommand>,
    cmd_sel: Option<usize>,
) -> (Seq<DockerCommand>, Option<usize>) {
    match sel {
        Some(i) if i < items.len() => {
            let new_cmds = commands_for(items[i as int].state);
            let prev = match cmd_sel {
                Some(k) => if k < cmds.len() {
                    Some(cmds[k as int])
                } else {
                    None
                },
                None => None,
            };
            let new_sel = match prev {
                Some(c) => if new_cmds.contains(c) {
                    Some(first_index_of(new_cmds, c) as usize)
                } else {
                    Some(0usize)
                },
                None => Some(0usize),
            };
            (new_cmds, new_sel)
        },
        _ => (cmds, cmd_sel),
    }
}

/// The log buffer after adding `msgs` one by one, dropping the oldest line
/// whenever it holds more than `cap` lines.
pub open spec fn append_capped(buf: Seq<Seq<char>>, msgs: Seq<Seq<char>>, cap: nat) -> Seq<Seq<char>>
    decreases msgs.len(),
{
    if msgs.len() == 0 {
        buf
    } else {
        let b = append_capped(buf, msgs.drop_last(), cap).push(msgs.last());
        if b.len() > cap {
            b.drop_first()
        } else {
            b
        }
    }
}

/// Samples kept per container.
pub const MAX_SAMPLES: usize = 60;

/// Log lines kept.
pub const MAX_LOG_LINES: usize = 10000;

/// `buf` with `x` added, dropping the oldest sample beyond 60.
pub open spec fn push_sample(buf: Seq<u64>, x: u64) -> Seq<u64> {
    let b = buf.push(x);
    if b.len() > MAX_SAMPLES {
        b.drop_first()
    } else {
        b
    }
}

/// The filter field after `h`: Name, Image, State, Status, Id, then Name again.
pub open spec fn filter_after(h: Header) -> Header {
    match h {
        Header::Name => Header::Image,
        Header::Image => Header::State,
        Header::State => Header::Status,
        Header::Status => Header::Id,
        _ => Header::Name,
    }
}

/// The filter field before `h`.
pub open spec fn filter_before(h: Header) -> Header {
    match h {
        Header::Name => Header::Id,
        Header::Image => Header::Name,
        Header::State => Header::Image,
        Header::Status => Header::State,
        Header::Id => Header::Status,
        _ => Header::Name,
    }
}

/// The text of a log buffer.
pub open spec fn logs_view(l: Seq<String>) -> Seq<Seq<char>> {
    l.map_values(|s: String| s@)
}

/// Where `cmd` first stands in `cmds`.
pub fn command_position(cmds: &Vec<DockerCommand>, cmd: DockerCommand) -> (r: Option<usize>)
    ensures
        match r {
            Some(p) => cmds@.contains(cmd) && p == first_index_of(cmds@, cmd),
            None => !cmds@.contains(cmd),
        },
{
    let mut p: usize = 0;
    while p < cmds.len()
        invariant
            p <= cmds@.len(),
            forall|m: int| 0 <= m < p ==> cmds@[m] != cmd,
        decreases cmds@.len() - p,
    {
        if cmds[p] == cmd {
            proof {
                let k = first_index_of(cmds@, cmd);
                assert(cmds@[p as int] == cmd);
                assert(k == p) by {
                    if k < p {
                        assert(cmds@[k] != cmd);
                    }
                    if k > p {
                        assert(cmds@[p as int] != cmd);
                    }
                }
            }
            return Some(p);
        }
        p = p + 1;
    }
    None
}

/// Record new samples in `c` (see `with_stats`).
pub fn apply_stats(c: &mut ContainerItem, stats: EventStats)
    ensures
        final(c)@ == with_stats(old(c)@, stats),
{
    c.cpu_stats.push_back(stats.cpu_usage);
    if c.cpu_stats.len() > MAX_SAMPLES {
        c.cpu_stats.pop_front();
    }
    c.mem_stats.push_back(stats.memory_usage);
    if c.mem_stats.len() > MAX_SAMPLES {
        c.mem_stats.pop_front();
    }
    c.mem_limit = stats.memory_limit;
    c.rx = stats.network_rx;
    c.tx = stats.network_tx;
    proof {
        assert(c@.cpu_stats =~= push_sample(old(c)@.cpu_stats, stats.cpu_usage));
        assert(c@.mem_stats =~= push_sample(old(c)@.mem_stats, stats.memory_usage));
    }
}

/// Append the messages of `lines` to `buf`, keeping its last `MAX_LOG_LINES`.
pub fn append_lines(buf: &mut VecDeque<String>, lines: &Vec<LogLine>)
    ensures
        logs_view(final(buf)@) == append_capped(logs_view(old(buf)@), messages(lines@), MAX_LOG_LINES as nat),
{
    let ghost start = logs_view(buf@);
    let ghost msgs = messages(lines@);
    let mut i: usize = 0;
    proof {
        assert(msgs.take(0) =~= Seq::<Seq<char>>::empty());
    }
    while i < lines.len()
        invariant
            i <= lines@.len(),
            msgs == messages(lines@),
            logs_view(buf@) == append_capped(start, msgs.take(i as int), MAX_LOG_LINES as nat),
        decreases lines@.len() - i,
    {
        let line = lines[i].message.clone();
        let ghost before = buf@;
        buf.push_back(line);
        if buf.len() > MAX_LOG_LINES {
            buf.pop_front();
        }
        proof {
            let t = msgs.take(i + 1);
            assert(t.drop_last() =~= msgs.take(i as int));
            assert(t.last() == msgs[i as int]);
            assert(logs_view(before.push(line)) =~= logs_view(before).push(line@));
            if before.len() + 1 > MAX_LOG_LINES {
                assert(logs_view(buf@) =~= logs_view(before).push(line@).drop_first());
            } else {
                assert(logs_view(buf@) =~= logs_view(before).push(line@));
            }
        }
        i = i + 1;
    }
    proof {
        assert(msgs.take(lines@.len() as int) =~= msgs);
    }
}

/// What a list update does (see `UIContainerState::update_containers`).
pub open spec fn list_updated(u0: UIContainerState, event_containers: Seq<EventContainerItem>, u1: UIContainerState, r: Option<String>) -> bool {
    &&& ({
        let ecs = events_view(event_containers);
        let new_items = merged_list(u0.items(), ecs);
        let sel = reselect(
            new_items,
            selected_id(u0.items(), u0.containers.selected),
            u0.containers.selected,
        );
        let cmds = commands_after(
            new_items,
            sel,
            u0.docker_commands.items@,
            u0.docker_commands.selected,
        );
        &&& u1.items() == new_items
        &&& u1.containers.selected == sel
        &&& u1.docker_commands.items@ == cmds.0
        &&& u1.docker_commands.selected == cmds.1
        &&& match r {
            Some(id) => selected_id(new_items, sel) == Some(id@),
            None => selected_id(new_items, sel) is None,
        }
    })
    &&& u1.logs@ == u0.logs@
    &&& u1.filter_term == u0.filter_term
    &&& u1.filter_by == u0.filter_by
    &&& u1.sort_header == u0.sort_header
    &&& u1.sort_ascending == u0.sort_ascending
    &&& u1.version_view() == bumped(u0.version_view())
    &&& u1.rendered_view() == u0.rendered_view()
}

/// What new samples do (see `UIContainerState::update_container_stats`).
pub open spec fn stats_updated(u0: UIContainerState, container_id: Seq<char>, stats: EventStats, u1: UIContainerState) -> bool {
    &&& match first_with_id(u0.items(), container_id) {
        Some(k) => {
            &&& u1.items() == u0.items().update(k, with_stats(u0.items()[k], stats))
            &&& u1.version_view() == if selected_id(u0.items(), u0.containers.selected)
                == Some(container_id) {
                bumped(u0.version_view())
            } else {
                u0.version_view()
            }
        },
        None => {
            &&& u1.items() == u0.items()
            &&& u1.version_view() == u0.version_view()
        }
    }
    &&& u1.containers.selected == u0.containers.selected
    &&& u1.docker_commands == u0.docker_commands
    &&& u1.logs@ == u0.logs@
    &&& u1.same_settings(&u0)
    &&& u1.rendered_view() == u0.rendered_view()
}

/// What new log lines do (see `UIContainerState::add_logs`).
pub open spec fn logs_added(u0: UIContainerState, container_id: Seq<char>, logs: Seq<LogLine>, u1: UIContainerState) -> bool {
    &&& if selected_id(u0.items(), u0.containers.selected) == Some(container_id) {
        &&& logs_view(u1.logs@) == if logs.len() == 0 {
            Seq::empty()
        } else {
            append_capped(logs_view(u0.logs@), messages(logs), MAX_LOG_LINES as nat)
        }
        &&& u1.version_view() == bumped(u0.version_view())
    } else {
        &&& u1.logs@ == u0.logs@
        &&& u1.version_view() == u0.version_view()
    }
    &&& u1.containers == u0.containers
    &&& u1.docker_commands == u0.docker_commands
    &&& u1.same_settings(&u0)
    &&& u1.rendered_view() == u0.rendered_view()
}

/// What a removal does (see `UIContainerState::remove_container`).
pub open spec fn container_removed(u0: UIContainerState, container_id: Seq<char>, u1: UIContainerState) -> bool {
    &&& u1.items() == u0.items().filter(other_id(container_id))
    &&& u1.containers.selected == clamp_selection(
        u0.containers.selected,
        u0.items().filter(other_id(container_id)).len(),
    )
    &&& u1.version_view() == bumped(u0.version_view())
    &&& u1.docker_commands == u0.docker_commands
    &&& u1.logs@ == u0.logs@
    &&& u1.same_settings(&u0)
    &&& u1.rendered_view() == u0.rendered_view()
}

/// UI-specific state for managing containers.
#[derive(Debug)]
pub struct UIContainerState {
    /// List of containers with selection state.
    pub containers: SelectList<ContainerItem>,
    /// Docker commands available for the selected container.
    pub docker_commands: SelectList<DockerCommand>,
    /// Logs for the selected container.
    pub logs: VecDeque<String>,
    /// Filter term for container list.
    pub filter_term: String,
    /// Field to filter by.
    pub filter_by: Header,
    /// Current sort header (None means unsorted).
    pub sort_header: Option<Header>,
    /// Sort order (true = ascending, false = descending).
    pub sort_ascending: bool,
    /// Change counter, and its value when the state was last rendered.
    pub changes: ChangeCounter,
}

/// `v` plus one, wrapping to zero.
pub open spec fn bumped(v: u64) -> u64 {
    if v == u64::MAX {
        0
    } else {
        (v + 1) as u64
    }
}

/// A container after new samples: the cpu and memory samples take the new
/// values (keeping the last 60), the limit and network counters are replaced.
pub open spec fn with_stats(c: ContainerItemView, st: EventStats) -> ContainerItemView {
    ContainerItemView {
        cpu_stats: push_sample(c.cpu_stats, st.cpu_usage),
        mem_stats: push_sample(c.mem_stats, st.memory_usage),
        mem_limit: st.memory_limit,
        rx: st.network_rx,
        tx: st.network_tx,
        ..c
    }
}

/// The messages of a list of log lines.
pub open spec fn messages(l: Seq<LogLine>) -> Seq<Seq<char>> {
    l.map_values(|x: LogLine| x.message@)
}

/// The selection after containers were removed, leaving `len`: none when the
/// list is empty, the last container when the selection is past the end.
pub open spec fn clamp_selection(sel: Option<usize>, len: nat) -> Option<usize> {
    match sel {
        Some(i) => if len == 0 {
            None
        } else if i >= len {
            Some((len - 1) as usize)
        } else {
            Some(i)
        },
        None => None,
    }
}

/// Whether container `c` does not have the id `id`.
pub open spec fn other_id(id: Seq<char>) -> spec_fn(ContainerItemView) -> bool {
    |c: ContainerItemView| c.id != id
}

/// A counter of changes that remembers its value at the last render.
#[derive(Debug)]
pub struct ChangeCounter {
    version: u64,
    last_significant_change: u64,
}

impl ChangeCounter {
    /// The number of changes, wrapping.
    pub closed spec fn version(&self) -> u64 {
        self.version
    }

    /// The count when the state was last rendered.
    pub closed spec fn rendered(&self) -> u64 {
        self.last_significant_change
    }

    /// A counter at zero.
    pub fn new() -> (c: Self)
        ensures
            c.version() == 0,
            c.rendered() == 0,
    {
        ChangeCounter { version: 0, last_significant_change: 0 }
    }

    /// Whether changes were counted since the last render.
    pub fn changed(&self) -> (b: bool)
        ensures
            b == (self.version() != self.rendered()),
    {
        self.version != self.last_significant_change
    }

    /// Note that the state was rendered.
    pub fn mark_rendered(&mut self)
        ensures
            final(self).rendered() == old(self).version(),
            final(self).version() == old(self).version(),
    {
        self.last_significant_change = self.version;
    }

    /// Count one change.
    pub fn increment(&mut self)
        ensures
            final(self).version() == bumped(old(self).version()),
            final(self).rendered() == old(self).rendered(),
    {
        self.version = self.version.wrapping_add(1);
    }
}

impl UIContainerState {
    /// The change counter.
    pub open spec fn version_view(&self) -> u64 {
        self.changes.version()
    }

    /// The change counter when the state was last rendered.
    pub open spec fn rendered_view(&self) -> u64 {
        self.changes.rendered()
    }

    /// The filter and sort settings of `self` and `other` are the same.
    pub open spec fn same_settings(&self, other: &Self) -> bool {
        &&& self.filter_term@ == other.filter_term@
        &&& self.filter_by == other.filter_by
        &&& self.sort_header == other.sort_header
        &&& self.sort_ascending == other.sort_ascending
    }

    /// `self` and `other` differ at most in the filter text and field.
    pub open spec fn same_but_filter(&self, other: &Self) -> bool {
        &&& self.containers == other.containers
        &&& self.docker_commands == other.docker_commands
        &&& self.logs@ == other.logs@
        &&& self.sort_header == other.sort_header
        &&& self.sort_ascending == other.sort_ascending
        &&& self.changes == other.changes
    }

    /// The containers, as plain values.
    pub open spec fn items(&self) -> Seq<ContainerItemView> {
        items_view(self.containers.items@)
    }

    /// An empty state offering every command, filtering by name, unsorted.
    pub fn new() -> (s: Self)
        ensures
            s.items() == Seq::<ContainerItemView>::empty(),
            s.containers.selected is None,
            s.docker_commands.items@ == seq![
                DockerCommand::Start,
                DockerCommand::Stop,
                DockerCommand::Restart,
                DockerCommand::Pause,
                DockerCommand::Resume,
                DockerCommand::Delete,
            ],
            s.docker_commands.selected is None,
            s.logs@.len() == 0,
            s.filter_term@ == Seq::<char>::empty(),
            s.filter_by == Header::Name,
            s.sort_header is None,
            s.sort_ascending,
            s.version_view() == 0,
            s.rendered_view() == 0,
    {
        let s = UIContainerState {
            containers: SelectList::new(Vec::new()),
            docker_commands: SelectList::new(
                vec![
                    DockerCommand::Start,
                    DockerCommand::Stop,
                    DockerCommand::Restart,
                    DockerCommand::Pause,
                    DockerCommand::Resume,
                    DockerCommand::Delete,
                ],
            ),
            logs: VecDeque::new(),
            filter_term: String::new(),
            filter_by: Header::Name,
            sort_header: None,
            sort_ascending: true,
            changes: ChangeCounter::new(),
        };
        proof {
            assert(s.items() =~= Seq::<ContainerItemView>::empty());
        }
        s
    }

    /// Whether the state changed since it was last rendered.
    pub fn has_significant_changes(&self) -> (b: bool)
        ensures
            b == (self.version_view() != self.rendered_view()),
    {
        self.changes.changed()
    }

    /// Mark that the changes have been rendered.
    pub fn mark_changes_rendered(&mut self)
        ensures
            final(self).rendered_view() == old(self).version_view(),
            final(self).version_view() == old(self).version_view(),
            final(self).items() == old(self).items(),
            final(self).containers.selected == old(self).containers.selected,
            final(self).docker_commands == old(self).docker_commands,
            final(self).logs@ == old(self).logs@,
    {
        self.changes.mark_rendered();
    }

    fn increment_version(&mut self)
        ensures
            final(self).version_view() == bumped(old(self).version_view()),
            final(self).rendered_view() == old(self).rendered_view(),
            final(self).containers == old(self).containers,
            final(self).docker_commands == old(self).docker_commands,
            final(self).logs == old(self).logs,
            final(self).filter_term == old(self).filter_term,
            final(self).filter_by == old(self).filter_by,
            final(self).sort_header == old(self).sort_header,
            final(self).sort_ascending == old(self).sort_ascending,
    {
        self.changes.increment();
    }

    /// The index of the first container with the id `id`.
    fn find_first(items: &Vec<ContainerItem>, id: &str) -> (r: Option<usize>)
        ensures
            match r {
                Some(k) => k < items@.len() && first_with_id(items_view(items@), id@) == Some(k as int),
                None => first_with_id(items_view(items@), id@) is None,
            },
    {
        let ghost v = items_view(items@);
        let mut i: usize = 0;
        while i < items.len()
            invariant
                v == items_view(items@),
                i <= items@.len(),
                forall|m: int| 0 <= m < i ==> v[m].id != id@,
            decreases items@.len() - i,
        {
            if text_eq(items[i].id.get(), id) {
                proof {
                    assert(v[i as int].id == id@);
                    let k = choose|k: int|
                        0 <= k < v.len() && v[k].id == id@ && forall|m: int|
                            0 <= m < k ==> v[m].id != id@;
                    assert(k == i) by {
                        if k < i {
                            assert(v[k].id != id@);
                        }
                        if k > i {
                            assert(v[i as int].id != id@);
                        }
                    }
                }
                return Some(i);
            }
            i = i + 1;
        }
        None
    }

    /// The index of the last container with the id `id`.
    fn find_last(items: &Vec<ContainerItem>, id: &str) -> (r: Option<usize>)
        ensures
            match r {
                Some(k) => k < items@.len() && last_with_id(items_view(items@), id@) == Some(k as int),
                None => last_with_id(items_view(items@), id@) is None,
            },
    {
        let ghost v = items_view(items@);
        let mut i: usize = items.len();
        proof {
            assert(v.take(i as int) =~= v);
        }
        while i > 0
            invariant
                v == items_view(items@),
                i <= items@.len(),
                last_with_id(v, id@) == last_with_id(v.take(i as int), id@),
            decreases i,
        {
            proof {
                assert(v.take(i as int).drop_last() =~= v.take(i - 1));
            }
            if text_eq(items[i - 1].id.get(), id) {
                return Some(i - 1);
            }
            i = i - 1;
        }
        proof {
            assert(v.take(0) =~= Seq::<ContainerItemView>::empty());
        }
        None
    }

    /// Whether an update before position `i` has the id of update `i`.
    fn claimed_earlier(ecs: &Vec<EventContainerItem>, i: usize) -> (b: bool)
        requires
            i < ecs@.len(),
        ensures
            b == claimed_before(events_view(ecs@), i as int),
    {
        let ghost v = events_view(ecs@);
        let mut j: usize = 0;
        while j < i
            invariant
                i < ecs@.len(),
                v == events_view(ecs@),
                j <= i,
                forall|m: int| 0 <= m < j ==> v[m].id != v[i as int].id,
            decreases i - j,
        {
            if text_eq(ecs[j].id.as_str(), ecs[i].id.as_str()) {
                proof {
                    assert(v[j as int].id == v[i as int].id);
                }
                return true;
            }
            j = j + 1;
        }
        false
    }

    /// Container `i` after the update `ecs` of the list `items` (see `merged`).
    fn merge_one(items: &Vec<ContainerItem>, ecs: &Vec<EventContainerItem>, i: usize) -> (c: ContainerItem)
        requires
            i < ecs@.len(),
            ecs@.len() <= u64::MAX,
        ensures
            c@ == merged(items_view(items@), events_view(ecs@), i as int),
    {
        let ghost old_items = items_view(items@);
        let ghost v = events_view(ecs@);
        let ec = &ecs[i];
        let found = if Self::claimed_earlier(ecs, i) {
            None
        } else {
            Self::find_last(items, ec.id.as_str())
        };
        let state = state_from(ec.state.as_str(), ec.status.as_str());
        let item = match found {
            Some(k) => {
                let existing = &items[k];
                ContainerItem {
                    created: existing.created,
                    id: existing.id.duplicate(),
                    image: ec.image.clone(),
                    is_oxker: existing.is_oxker,
                    name: ec.name.clone(),
                    ports: duplicate_ports(&ec.ports),
                    state,
                    status: ec.status.clone(),
                    cpu_stats: copy_samples(&existing.cpu_stats),
                    mem_stats: copy_samples(&existing.mem_stats),
                    mem_limit: existing.mem_limit,
                    rx: existing.rx,
                    tx: existing.tx,
                }
            },
            None => ContainerItem::new(
                i as u64,
                ContainerId::from_string(ec.id.clone()),
                ec.image.clone(),
                false,
                ec.name.clone(),
                duplicate_ports(&ec.ports),
                state,
                ec.status.clone(),
            ),
        };
        proof {
            assert(v[i as int] == ec@);
            match found {
                Some(k) => {
                    assert(old_items[k as int] == items@[k as int]@);
                },
                None => {},
            }
        }
        item
    }

    /// Update the container list from the core's list (see `merged`), keep the
    /// selected container selected (or select the first), refresh the offered
    /// commands, and count a change. Returns the id of the selected container,
    /// whose logs should be refreshed.
    pub fn update_containers(&mut self, event_containers: Vec<EventContainerItem>) -> (r: Option<String>)
        requires
            event_containers@.len() <= u64::MAX,
        ensures
            list_updated(*old(self), event_containers@, *final(self), r),

    {
        let ghost old_items = self.items();
        let ghost ecs = events_view(event_containers@);
        let selected_id = self.get_selected_container_id();
        let mut new_items: Vec<ContainerItem> = Vec::new();
        let n = event_containers.len();
        let mut i: usize = 0;
        while i < n
            invariant
                n == event_containers@.len(),
                n <= u64::MAX,
                i <= n,
                ecs == events_view(event_containers@),
                old_items == items_view(self.containers.items@),
                new_items@.len() == i,
                forall|k: int| 0 <= k < i ==> #[trigger] new_items@[k]@ == merged(old_items, ecs, k),
            decreases n - i,
        {
            let item = Self::merge_one(&self.containers.items, &event_containers, i);
            new_items.push(item);
            i = i + 1;
        }
        self.containers.items = new_items;
        proof {
            assert(self.items() =~= Seq::new(ecs.len(), |k: int| merged(old_items, ecs, k)));
        }
        self.containers.selected = Self::reselected(&self.containers.items, selected_id, self.containers.selected);
        self.update_docker_commands();
        self.increment_version();
        match self.get_selected_container_id() {
            Some(id) => Some(id.id),
            None => None,
        }
    }

    /// The selection once the list is `items` (see `reselect`).
    fn reselected(items: &Vec<ContainerItem>, old_id: Option<ContainerId>, sel: Option<usize>) -> (r: Option<usize>)
        ensures
            r == reselect(items_view(items@), opt_id_view(old_id), sel),
    {
        match old_id {
            Some(id) => match Self::find_first(items, id.get()) {
                Some(index) => Some(index),
                None => if items.len() > 0 {
                    Some(0)
                } else {
                    sel
                },
            },
            None => if items.len() > 0 {
                Some(0)
            } else {
                sel
            },
        }
    }

    /// Whether the selected container has the id `id`.
    fn selected_is(&self, id: &str) -> (b: bool)
        ensures
            b == (selected_id(self.items(), self.containers.selected) == Some(id@)),
    {
        match self.containers.selected {
            Some(i) => if i < self.containers.items.len() {
                text_eq(self.containers.items[i].id.get(), id)
            } else {
                false
            },
            None => false,
        }
    }

    /// Offer the commands for the selected container's state (see `commands_after`).
    fn update_docker_commands(&mut self)
        ensures
            ({
                let c = commands_after(
                    old(self).items(),
                    old(self).containers.selected,
                    old(self).docker_commands.items@,
                    old(self).docker_commands.selected,
                );
                &&& final(self).docker_commands.items@ == c.0
                &&& final(self).docker_commands.selected == c.1
            }),
            final(self).containers == old(self).containers,
            final(self).logs == old(self).logs,
            final(self).filter_term == old(self).filter_term,
            final(self).filter_by == old(self).filter_by,
            final(self).sort_header == old(self).sort_header,
            final(self).sort_ascending == old(self).sort_ascending,
            final(self).version_view() == old(self).version_view(),
            final(self).rendered_view() == old(self).rendered_view(),
    {
        if let Some(idx) = self.containers.selected {
            if idx < self.containers.items.len() {
                let state = self.containers.items[idx].state;
                proof {
                    assert(self.items()[idx as int].state == state);
                }
                let commands = DockerCommand::gen_vec(state);
                let selected_command: Option<DockerCommand> = match self.docker_commands.selected {
                    Some(k) => if k < self.docker_commands.items.len() {
                        Some(self.docker_commands.items[k])
                    } else {
                        None
                    },
                    None => None,
                };
                self.docker_commands = SelectList::new(commands);
                match selected_command {
                    Some(cmd) => {
                        match command_position(&self.docker_commands.items, cmd) {
                            Some(p) => {
                                self.docker_commands.selected = Some(p);
                            },
                            None => {
                                self.docker_commands.selected = Some(0);
                            },
                        }
                    },
                    None => {
                        self.docker_commands.selected = Some(0);
                    },
                }
            }
        }
    }

    /// The position of the first container with the id `id`.
    pub fn position_of(items: &Vec<ContainerItem>, id: &str) -> (r: Option<usize>)
        ensures
            match r {
                Some(k) => k < items@.len() && first_with_id(items_view(items@), id@) == Some(k as int),
                None => first_with_id(items_view(items@), id@) is None,
            },
    {
        Self::find_first(items, id)
    }

    /// Record new samples for the first container with the id `container_id`;
    /// the change counts only when that id is the selected container's.
    #[verifier::spinoff_prover]
    #[verifier::rlimit(60)]
    pub fn update_container_stats(&mut self, container_id: String, stats: EventStats)
        ensures
            stats_updated(*old(self), container_id@, stats, *final(self)),

    {
        let ghost old_items = self.items();
        match Self::position_of(&self.containers.items, container_id.as_str()) {
            Some(k) => {
                let mut c = self.containers.items[k].duplicate();
                apply_stats(&mut c, stats);
                self.containers.items.set(k, c);
                proof {
                    assert(self.items() =~= old_items.update(k as int, with_stats(old_items[k as int], stats)));
                    assert(selected_id(self.items(), self.containers.selected) == selected_id(
                        old_items,
                        self.containers.selected,
                    ));
                }
                let selected_matches = self.selected_is(container_id.as_str());
                if selected_matches {
                    self.increment_version();
                }
            },
            None => {},
        }
    }

    /// Add log lines for the selected container: nothing happens for another
    /// container; an empty list clears the logs; else the lines are appended,
    /// keeping the last 10000. Counts a change when the container is selected.
    pub fn add_logs(&mut self, container_id: String, logs: Vec<LogLine>)
        ensures
            logs_added(*old(self), container_id@, logs@, *final(self)),

    {
        if self.selected_is(container_id.as_str()) {
            if logs.len() == 0 {
                self.logs = VecDeque::new();
                proof {
                    assert(logs_view(self.logs@) =~= Seq::<Seq<char>>::empty());
                }
            } else {
                append_lines(&mut self.logs, &logs);
            }
            self.increment_version();
        }
    }

    /// Remove the containers with the id `container_id`, keep the selection
    /// on the list (see `clamp_selection`) and count a change.
    pub fn remove_container(&mut self, container_id: String)
        ensures
            container_removed(*old(self), container_id@, *final(self)),

    {
        let ghost old_items = self.items();
        let ghost p = other_id(container_id@);
        let mut kept: Vec<ContainerItem> = Vec::new();
        let mut i: usize = 0;
        proof {
            assert(old_items.take(0) =~= Seq::<ContainerItemView>::empty());
            reveal_with_fuel(Seq::<_>::filter, 1);
        }
        while i < self.containers.items.len()
            invariant
                i <= self.containers.items@.len(),
                old_items == items_view(self.containers.items@),
                items_view(kept@) == old_items.take(i as int).filter(p),
                p == other_id(container_id@),
            decreases self.containers.items@.len() - i,
        {
            let ghost before = kept@;
            let keep = !text_eq(self.containers.items[i].id.get(), container_id.as_str());
            if keep {
                kept.push(self.containers.items[i].duplicate());
            }
            proof {
                let t = old_items.take(i + 1);
                assert(t.drop_last() =~= old_items.take(i as int));
                assert(t.last() == old_items[i as int]);
                reveal_with_fuel(Seq::<_>::filter, 1);
                if keep {
                    assert(items_view(kept@) =~= items_view(before).push(old_items[i as int]));
                } else {
                    assert(items_view(kept@) =~= items_view(before));
                }
            }
            i = i + 1;
        }
        proof {
            assert(old_items.take(old_items.len() as int) =~= old_items);
        }
        self.containers.items = kept;
        if self.containers.selected.is_some() {
            let len = self.containers.items.len();
            if len == 0 {
                self.containers.selected = None;
            } else {
                match self.containers.selected {
                    Some(sel) => if sel >= len {
                        self.containers.selected = Some(len - 1);
                    },
                    None => {},
                }
            }
        }
        self.increment_version();
    }

    /// The id of the selected container.
    pub fn get_selected_container_id(&self) -> (r: Option<ContainerId>)
        ensures
            opt_id_view(r) == selected_id(self.items(), self.containers.selected),
    {
        match self.containers.selected {
            Some(i) => if i < self.containers.items.len() {
                Some(self.containers.items[i].id.duplicate())
            } else {
                None
            },
            None => None,
        }
    }

    /// Select the next container, clear the logs, offer its commands and
    /// count a change.
    pub fn next_container(&mut self)
        ensures
            final(self).items() == old(self).items(),
            final(self).containers.selected == sel_next(old(self).containers.selected, old(self).items().len()),
            final(self).logs@.len() == 0,
            ({
                let c = commands_after(
                    old(self).items(),
                    final(self).containers.selected,
                    old(self).docker_commands.items@,
                    old(self).docker_commands.selected,
                );
                &&& final(self).docker_commands.items@ == c.0
                &&& final(self).docker_commands.selected == c.1
            }),
            final(self).version_view() == bumped(old(self).version_view()),
            final(self).same_settings(old(self)),
            final(self).rendered_view() == old(self).rendered_view(),
    {
        self.containers.next();
        self.clear_logs();
        self.update_docker_commands();
        self.increment_version();
    }

    /// Select the previous container, clear the logs, offer its commands and
    /// count a change.
    pub fn previous_container(&mut self)
        ensures
            final(self).items() == old(self).items(),
            final(self).containers.selected == sel_prev(old(self).containers.selected, old(self).items().len()),
            final(self).logs@.len() == 0,
            ({
                let c = commands_after(
                    old(self).items(),
                    final(self).containers.selected,
                    old(self).docker_commands.items@,
                    old(self).docker_commands.selected,
                );
                &&& final(self).docker_commands.items@ == c.0
                &&& final(self).docker_commands.selected == c.1
            }),
            final(self).version_view() == bumped(old(self).version_view()),
            final(self).same_settings(old(self)),
            final(self).rendered_view() == old(self).rendered_view(),
    {
        self.containers.previous();
        self.clear_logs();
        self.update_docker_commands();
        self.increment_version();
    }

    /// Select the first container, clear the logs, offer its commands and
    /// count a change.
    pub fn first_container(&mut self)
        ensures
            final(self).items() == old(self).items(),
            final(self).containers.selected == Some(0usize),
            final(self).logs@.len() == 0,
            ({
                let c = commands_after(
                    old(self).items(),
                    final(self).containers.selected,
                    old(self).docker_commands.items@,
                    old(self).docker_commands.selected,
                );
                &&& final(self).docker_commands.items@ == c.0
                &&& final(self).docker_commands.selected == c.1
            }),
            final(self).version_view() == bumped(old(self).version_view()),
            final(self).same_settings(old(self)),
            final(self).rendered_view() == old(self).rendered_view(),
    {
        self.containers.start();
        self.clear_logs();
        self.update_docker_commands();
        self.increment_version();
    }

    /// Select the last container, clear the logs, offer its commands and
    /// count a change.
    pub fn last_container(&mut self)
        ensures
            final(self).items() == old(self).items(),
            final(self).containers.selected == sel_end(old(self).containers.selected, old(self).items().len()),
            final(self).logs@.len() == 0,
            ({
                let c = commands_after(
                    old(self).items(),
                    final(self).containers.selected,
                    old(self).docker_commands.items@,
                    old(self).docker_commands.selected,
                );
                &&& final(self).docker_commands.items@ == c.0
                &&& final(self).docker_commands.selected == c.1
            }),
            final(self).version_view() == bumped(old(self).version_view()),
            final(self).same_settings(old(self)),
            final(self).rendered_view() == old(self).rendered_view(),
    {
        self.containers.end();
        self.clear_logs();
        self.update_docker_commands();
        self.increment_version();
    }

    /// A copy of the containers.
    pub fn get_container_items(&self) -> (r: Vec<ContainerItem>)
        ensures
            items_view(r@) == self.items(),
    {
        let mut r: Vec<ContainerItem> = Vec::new();
        let mut i: usize = 0;
        while i < self.containers.items.len()
            invariant
                i <= self.containers.items@.len(),
                items_view(r@) == self.items().take(i as int),
            decreases self.containers.items@.len() - i,
        {
            let ghost before = r@;
            let c = self.containers.items[i].duplicate();
            r.push(c);
            proof {
                assert(self.items().take(i + 1) =~= self.items().take(i as int).push(self.items()[i as int]));
                assert(items_view(r@) =~= items_view(before).push(c@));
            }
            i = i + 1;
        }
        proof {
            assert(self.items().take(self.items().len() as int) =~= self.items());
        }
        r
    }

    /// The number of containers.
    pub fn get_container_count(&self) -> (n: usize)
        ensures
            n == self.items().len(),
    {
        self.containers.items.len()
    }

    /// Clear the logs.
    pub fn clear_logs(&mut self)
        ensures
            final(self).logs@.len() == 0,
            final(self).containers == old(self).containers,
            final(self).docker_commands == old(self).docker_commands,
            final(self).same_settings(old(self)),
            final(self).version_view() == old(self).version_view(),
            final(self).rendered_view() == old(self).rendered_view(),
    {
        self.logs = VecDeque::new();
    }

    /// The logs.
    pub fn get_logs(&self) -> (l: &VecDeque<String>)
        ensures
            l@ == self.logs@,
    {
        &self.logs
    }

    /// Select the next command.
    pub fn next_docker_command(&mut self)
        ensures
            final(self).docker_commands.items@ == old(self).docker_commands.items@,
            final(self).docker_commands.selected == sel_next(
                old(self).docker_commands.selected,
                old(self).docker_commands.items@.len(),
            ),
            final(self).containers == old(self).containers,
            final(self).logs@ == old(self).logs@,
            final(self).same_settings(old(self)),
            final(self).version_view() == old(self).version_view(),
            final(self).rendered_view() == old(self).rendered_view(),
    {
        self.docker_commands.next();
    }

    /// Select the previous command.
    pub fn previous_docker_command(&mut self)
        ensures
            final(self).docker_commands.items@ == old(self).docker_commands.items@,
            final(self).docker_commands.selected == sel_prev(
                old(self).docker_commands.selected,
                old(self).docker_commands.items@.len(),
            ),
            final(self).containers == old(self).containers,
            final(self).logs@ == old(self).logs@,
            final(self).same_settings(old(self)),
            final(self).version_view() == old(self).version_view(),
            final(self).rendered_view() == old(self).rendered_view(),
    {
        self.docker_commands.previous();
    }

    /// Select the first command.
    pub fn first_docker_command(&mut self)
        ensures
            final(self).docker_commands.items@ == old(self).docker_commands.items@,
            final(self).docker_commands.selected == Some(0usize),
            final(self).containers == old(self).containers,
            final(self).logs@ == old(self).logs@,
            final(self).same_settings(old(self)),
            final(self).version_view() == old(self).version_view(),
            final(self).rendered_view() == old(self).rendered_view(),
    {
        self.docker_commands.start();
    }

    /// Select the last command.
    pub fn last_docker_command(&mut self)
        ensures
            final(self).docker_commands.items@ == old(self).docker_commands.items@,
            final(self).docker_commands.selected == sel_end(
                old(self).docker_commands.selected,
                old(self).docker_commands.items@.len(),
            ),
            final(self).containers == old(self).containers,
            final(self).logs@ == old(self).logs@,
            final(self).same_settings(old(self)),
            final(self).version_view() == old(self).version_view(),
            final(self).rendered_view() == old(self).rendered_view(),
    {
        self.docker_commands.end();
    }

    /// The selected command, if the selection is on a command.
    pub fn get_selected_docker_command(&self) -> (r: Option<&DockerCommand>)
        ensures
            match self.docker_commands.selected {
                Some(i) => if i < self.docker_commands.items@.len() {
                    r == Some(&self.docker_commands.items@[i as int])
                } else {
                    r is None
                },
                None => r is None,
            },
    {
        match self.docker_commands.selected {
            Some(i) => if i < self.docker_commands.items.len() {
                Some(&self.docker_commands.items[i])
            } else {
                None
            },
            None => None,
        }
    }

    /// Set the filter text.
    pub fn set_filter_term(&mut self, term: String)
        ensures
            final(self).filter_term@ == term@,
            final(self).filter_by == old(self).filter_by,
            final(self).same_but_filter(old(self)),
    {
        self.filter_term = term;
    }

    /// Add a char to the filter text.
    pub fn push_filter_char(&mut self, c: char)
        ensures
            final(self).filter_term@ == old(self).filter_term@.push(c),
            final(self).filter_by == old(self).filter_by,
            final(self).same_but_filter(old(self)),
    {
        push_char(&mut self.filter_term, c);
    }

    /// Remove the last char of the filter text, if any.
    pub fn pop_filter_char(&mut self)
        ensures
            final(self).filter_term@ == if old(self).filter_term@.len() == 0 {
                old(self).filter_term@
            } else {
                old(self).filter_term@.drop_last()
            },
            final(self).filter_by == old(self).filter_by,
            final(self).same_but_filter(old(self)),
    {
        pop_char(&mut self.filter_term);
    }

    /// Empty the filter text.
    pub fn clear_filter(&mut self)
        ensures
            final(self).filter_term@ == Seq::<char>::empty(),
            final(self).filter_by == old(self).filter_by,
            final(self).same_but_filter(old(self)),
    {
        self.filter_term = String::new();
    }

    /// Filter by the next field (see `filter_after`).
    pub fn next_filter_field(&mut self)
        ensures
            final(self).filter_by == filter_after(old(self).filter_by),
            final(self).filter_term@ == old(self).filter_term@,
            final(self).same_but_filter(old(self)),
    {
        self.filter_by = match self.filter_by {
            Header::Name => Header::Image,
            Header::Image => Header::State,
            Header::State => Header::Status,
            Header::Status => Header::Id,
            _ => Header::Name,
        };
    }

    /// Filter by the previous field (see `filter_before`).
    pub fn prev_filter_field(&mut self)
        ensures
            final(self).filter_by == filter_before(old(self).filter_by),
            final(self).filter_term@ == old(self).filter_term@,
            final(self).same_but_filter(old(self)),
    {
        self.filter_by = match self.filter_by {
            Header::Name => Header::Id,
            Header::Image => Header::Name,
            Header::State => Header::Image,
            Header::Status => Header::State,
            Header::Id => Header::Status,
            _ => Header::Name,
        };
    }
}

impl Default for UIContainerState {
    fn default() -> (s: Self)
        ensures
            s.items() == Seq::<ContainerItemView>::empty(),
            s.containers.selected is None,
            s.filter_by == Header::Name,
            s.sort_header is None,
    {
        Self::new()
    }
}

} // verus!

verus! {

/// `last_with_id` finds a container with the id, within the list.
pub proof fn lemma_last_with_id(items: Seq<ContainerItemView>, id: Seq<char>)
    ensures
        match last_with_id(items, id) {
            Some(j) => 0 <= j < items.len() && items[j].id == id,
            None => forall|m: int| 0 <= m < items.len() ==> items[m].id != id,
        },
    decreases items.len(),
{
    if items.len() > 0 && items.last().id != id {
        lemma_last_with_id(items.drop_last(), id);
        assert forall|m: int| 0 <= m < items.len() - 1 implies items[m] == items.drop_last()[m] by {}
    }
}

/// When a container at `k` has the id, `first_with_id` finds one at or before `k`.
pub proof fn lemma_first_with_id(items: Seq<ContainerItemView>, id: Seq<char>, k: int)
    requires
        0 <= k < items.len(),
        items[k].id == id,
    ensures
        first_with_id(items, id) matches Some(j) && 0 <= j <= k && items[j].id == id,
    decreases k,
{
    if exists|m: int| 0 <= m < k && items[m].id == id {
        let m = choose|m: int| 0 <= m < k && items[m].id == id;
        lemma_first_with_id(items, id, m);
    } else {
        assert(0 <= k < items.len() && items[k].id == id && forall|m: int| 0 <= m < k ==> items[m].id != id);
    }
}

/// What `first_with_id` finds is in the list and has the id.
pub proof fn lemma_first_with_id_found(items: Seq<ContainerItemView>, id: Seq<char>)
    ensures
        first_with_id(items, id) matches Some(k) ==> 0 <= k < items.len() && items[k].id == id,
{
    if exists|k: int| 0 <= k < items.len() && items[k].id == id {
        let k = choose|k: int| 0 <= k < items.len() && items[k].id == id;
        lemma_first_with_id(items, id, k);
    }
}

/// The list after an update from `ecs` (see `merged`).
pub open spec fn merged_list(old: Seq<ContainerItemView>, ecs: Seq<EventView>) -> Seq<ContainerItemView> {
    Seq::new(ecs.len(), |i: int| merged(old, ecs, i))
}

/// A list update keeps the selected container selected whenever the update
/// still lists it.
#[verifier::spinoff_prover]
pub proof fn law_update_keeps_selection(
    old: Seq<ContainerItemView>,
    ecs: Seq<EventView>,
    sel: Option<usize>,
    id: Seq<char>,
    k: int,
)
    requires
        ecs.len() <= usize::MAX,
        selected_id(old, sel) == Some(id),
        0 <= k < ecs.len(),
        ecs[k].id == id,
    ensures
        selected_id(merged_list(old, ecs), reselect(merged_list(old, ecs), Some(id), sel)) == Some(id),
{
    let new = merged_list(old, ecs);
    assert forall|i: int| 0 <= i < ecs.len() implies #[trigger] new[i].id == ecs[i].id by {
        lemma_last_with_id(old, ecs[i].id);
    }
    lemma_first_with_id(new, id, k);
}

/// A container that the list held once and that an update lists once keeps
/// its samples, counters, creation index and flag; its other fields come from
/// the update.
pub proof fn law_update_keeps_samples(old: Seq<ContainerItemView>, ecs: Seq<EventView>, i: int, j: int)
    requires
        0 <= i < ecs.len(),
        0 <= j < old.len(),
        old[j].id == ecs[i].id,
        forall|m: int| 0 <= m < old.len() && m != j ==> old[m].id != ecs[i].id,
        forall|m: int| 0 <= m < i ==> ecs[m].id != ecs[i].id,
    ensures
        merged_list(old, ecs)[i] == (ContainerItemView {
            name: ecs[i].name,
            image: ecs[i].image,
            status: ecs[i].status,
            ports: ecs[i].ports,
            state: parse_state(ecs[i].state, ecs[i].status),
            ..old[j]
        }),
{
    lemma_last_with_id(old, ecs[i].id);
}

/// After a removal no container has the removed id, and the selection, if
/// any, is on a container.
pub proof fn law_remove_container(items: Seq<ContainerItemView>, id: Seq<char>, sel: Option<usize>)
    requires
        items.len() <= usize::MAX,
    ensures
        forall|m: int|
            0 <= m < items.filter(other_id(id)).len() ==> #[trigger] items.filter(other_id(id))[m].id != id,
        clamp_selection(sel, items.filter(other_id(id)).len()) matches Some(i) ==> i < items.filter(
            other_id(id),
        ).len(),
{
    broadcast use vstd::seq_lib::group_filter_ensures;

    assert forall|m: int| 0 <= m < items.filter(other_id(id)).len() implies #[trigger] items.filter(
        other_id(id),
    )[m].id != id by {
        assert(other_id(id)(items.filter(other_id(id))[m]));
    }
}

/// The log buffer never grows past its cap, and the newest message is last.
pub proof fn law_logs_capped(buf: Seq<Seq<char>>, msgs: Seq<Seq<char>>, cap: nat)
    requires
        buf.len() <= cap,
        cap > 0,
    ensures
        append_capped(buf, msgs, cap).len() <= cap,
        msgs.len() > 0 ==> append_capped(buf, msgs, cap).last() == msgs.last(),
    decreases msgs.len(),
{
    if msgs.len() > 0 {
        law_logs_capped(buf, msgs.drop_last(), cap);
    }
}

/// A container keeps at most 60 samples, the newest last.
pub proof fn law_samples_capped(buf: Seq<u64>, x: u64)
    requires
        buf.len() <= MAX_SAMPLES,
    ensures
        push_sample(buf, x).len() <= MAX_SAMPLES,
        push_sample(buf, x).last() == x,
{
}

/// Stepping the filter field forward then back returns to it.
pub proof fn law_filter_field_roundtrip(h: Header)
    requires
        h == Header::Name || h == Header::Image || h == Header::State || h == Header::Status || h
            == Header::Id,
    ensures
        filter_before(filter_after(h)) == h,
        filter_after(filter_before(h)) == h,
{
}

/// Counting a change always makes the counter differ from its old value, so
/// a rendered state shows as changed again.
pub proof fn law_bumped_differs(v: u64)
    ensures
        bumped(v) != v,
{
}


/// Each of Docker's state names gives the state of that name, whatever the
/// status text says: "dead", "exited", "paused", "removing" and
/// "restarting" their own states, "running" a running state (unhealthy
/// exactly when the status says "(unhealthy)"); any other text is unknown.
pub proof fn law_docker_state_names(status: Seq<char>)
    ensures
        parse_state("dead"@, status) == State::Dead,
        parse_state("exited"@, status) == State::Exited,
        parse_state("paused"@, status) == State::Paused,
        parse_state("removing"@, status) == State::Removing,
        parse_state("restarting"@, status) == State::Restarting,
        parse_state("running"@, status) == State::Running(
            if has_substring(status, "(unhealthy)"@) {
                RunningState::Unhealthy
            } else {
                RunningState::Healthy
            },
        ),
{
    reveal_strlit("dead");
    reveal_strlit("exited");
    reveal_strlit("paused");
    reveal_strlit("removing");
    reveal_strlit("restarting");
    reveal_strlit("running");
    assert("exited"@ != "dead"@) by {
        assert("exited"@[0] != "dead"@[0]);
    }
    assert("paused"@ != "dead"@ && "paused"@ != "exited"@) by {
        assert("paused"@[0] != "dead"@[0]);
        assert("paused"@[0] != "exited"@[0]);
    }
    assert("removing"@ != "dead"@ && "removing"@ != "exited"@ && "removing"@ != "paused"@) by {
        assert("removing"@[0] != "dead"@[0]);
        assert("removing"@[0] != "exited"@[0]);
        assert("removing"@[0] != "paused"@[0]);
    }
    assert("restarting"@ != "dead"@ && "restarting"@ != "exited"@ && "restarting"@ != "paused"@
        && "restarting"@ != "removing"@) by {
        assert("restarting"@[0] != "dead"@[0]);
        assert("restarting"@[0] != "exited"@[0]);
        assert("restarting"@[0] != "paused"@[0]);
        assert("restarting"@.len() != "removing"@.len());
    }
    assert("running"@ != "dead"@ && "running"@ != "exited"@ && "running"@ != "paused"@
        && "running"@ != "removing"@ && "running"@ != "restarting"@) by {
        assert("running"@[0] != "dead"@[0]);
        assert("running"@[0] != "exited"@[0]);
        assert("running"@[0] != "paused"@[0]);
        assert("running"@[1] != "removing"@[1]);
        assert("running"@.len() != "restarting"@.len());
    }
}

/// The commands offered for a state hold no command twice.
pub proof fn lemma_commands_distinct(state: State)
    ensures
        commands_for(state).no_duplicates(),
{
    let c = commands_for(state);
    assert forall|a: int, b: int| 0 <= a < b < c.len() implies c[a] != c[b] by {
        match state {
            State::Dead | State::Exited => {},
            State::Paused => {},
            State::Restarting => {},
            State::Running(_) => {},
            _ => {},
        }
    }
}

/// When the container selection is valid, the commands offered are those
/// of the selected container's state and one of them is selected; and when
/// the command that was selected is still offered, it stays the selected
/// one.
pub proof fn law_command_selection_kept(
    items: Seq<ContainerItemView>,
    i: usize,
    cmds: Seq<DockerCommand>,
    cmd_sel: Option<usize>,
)
    requires
        i < items.len(),
    ensures
        ({
            let (new_cmds, new_sel) = commands_after(items, Some(i), cmds, cmd_sel);
            &&& new_cmds == commands_for(items[i as int].state)
            &&& new_sel matches Some(j) && j < new_cmds.len()
            &&& match cmd_sel {
                Some(k) => (k < cmds.len() && new_cmds.contains(cmds[k as int])) ==> new_cmds[new_sel->0 as int]
                    == cmds[k as int],
                None => true,
            }
        }),
{
    let new_cmds = commands_for(items[i as int].state);
    lemma_commands_distinct(items[i as int].state);
    assert(new_cmds.len() > 0);
    match cmd_sel {
        Some(k) => {
            if k < cmds.len() && new_cmds.contains(cmds[k as int]) {
                let c = cmds[k as int];
                let w = choose|w: int| 0 <= w < new_cmds.len() && new_cmds[w] == c;
                assert(forall|m: int| 0 <= m < w ==> new_cmds[m] != c);
                let f = first_index_of(new_cmds, c);
                assert(0 <= f < new_cmds.len() && new_cmds[f] == c);
            }
        },
        None => {},
    }
}


/// Which commands a container is offered, by its state: delete always (as
/// the last command); pause only when running; resume only when paused;
/// start only when dead or exited; stop when running, paused or restarting;
/// restart when running, dead or exited.
pub proof fn law_commands_offered(state: State)
    ensures
        commands_for(state).len() > 0,
        commands_for(state).last() == DockerCommand::Delete,
        commands_for(state).contains(DockerCommand::Pause) <==> state is Running,
        commands_for(state).contains(DockerCommand::Resume) <==> state == State::Paused,
        commands_for(state).contains(DockerCommand::Start) <==> (state == State::Dead || state == State::Exited),
        commands_for(state).contains(DockerCommand::Stop) <==> (state is Running || state == State::Paused
            || state == State::Restarting),
        commands_for(state).contains(DockerCommand::Restart) <==> (state is Running || state == State::Dead
            || state == State::Exited),
{
    let c = commands_for(state);
    match state {
        State::Dead | State::Exited => {
            assert(c[0] == DockerCommand::Start && c[1] == DockerCommand::Restart);
        },
        State::Paused => {
            assert(c[0] == DockerCommand::Resume && c[1] == DockerCommand::Stop);
        },
        State::Restarting => {
            assert(c[0] == DockerCommand::Stop);
        },
        State::Running(_) => {
            assert(c[0] == DockerCommand::Pause && c[1] == DockerCommand::Restart && c[2] == DockerCommand::Stop);
        },
        _ => {},
    }
}

} // verus!
