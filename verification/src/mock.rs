//! A stand-in for the core, for tests of the interface without Docker: it
//! records the commands it gets, keeps a list of containers that the
//! commands change, and says what it would send back.
use vstd::prelude::*;
use crate::model::{
    duplicate_ports, ports_view, state_text, ContainerId, ContainerPorts, CoreCommand,
    CoreCommandView, PortView, RunningState, State,
};
use crate::text::text_eq;
use crate::ui_state::{
    events_view, first_with_id, items_view, other_id, ContainerItem, ContainerItemView,
    EventContainerItem, EventView, LogLine,
};

verus! {

/// The plain values of recorded commands.
pub open spec fn commands_view(s: Seq<CoreCommand>) -> Seq<CoreCommandView> {
    s.map_values(|c: CoreCommand| c@)
}

/// What the stand-in answers a command with.
#[derive(Debug)]
pub enum MockReply {
    /// The container list, as the core publishes it.
    ContainerList(Vec<EventContainerItem>),
    /// The logs of a container.
    Logs { container_id: String, logs: Vec<LogLine> },
    /// A refresh of the container list, asked of the core.
    Refresh,
    /// The command, passed on to the core.
    Forward(CoreCommand),
    /// Nothing.
    Nothing,
}

/// The container `id` (the first with that id) in a new state and status.
pub open spec fn with_state(items: Seq<ContainerItemView>, id: Seq<char>, state: State, status: Seq<char>) -> Seq<ContainerItemView> {
    match first_with_id(items, id) {
        Some(k) => items.update(k, ContainerItemView { state, status, ..items[k] }),
        None => items,
    }
}

/// The stand-in's containers after a command: start, stop, restart, pause
/// and unpause set the container's state and status; remove drops it.
pub open spec fn mock_after(items: Seq<ContainerItemView>, c: CoreCommandView) -> Seq<ContainerItemView> {
    match c {
        CoreCommandView::StartContainer(id) => with_state(
            items,
            id,
            State::Running(RunningState::Healthy),
            "Up 1 second"@,
        ),
        CoreCommandView::StopContainer(id) => with_state(items, id, State::Exited, "Exited (0) 1 second ago"@),
        CoreCommandView::RestartContainer(id) => with_state(
            items,
            id,
            State::Running(RunningState::Healthy),
            "Up 1 second"@,
        ),
        CoreCommandView::PauseContainer(id) => with_state(items, id, State::Paused, "Up 1 minute (Paused)"@),
        CoreCommandView::UnpauseContainer(id) => with_state(
            items,
            id,
            State::Running(RunningState::Healthy),
            "Up 1 minute"@,
        ),
        CoreCommandView::RemoveContainer(id) => items.filter(other_id(id)),
        _ => items,
    }
}

/// A container as the core publishes it in a list.
pub open spec fn published(c: ContainerItemView) -> EventView {
    EventView { id: c.id, name: c.name, image: c.image, state: state_text(c.state), status: c.status, ports: c.ports }
}

/// The keys of a table of entries.
pub open spec fn keys_of<V>(s: Seq<(Seq<char>, V)>) -> Seq<Seq<char>> {
    s.map_values(|e: (Seq<char>, V)| e.0)
}

/// The place of the first key `id`, if any.
pub open spec fn first_key(keys: Seq<Seq<char>>, id: Seq<char>) -> Option<int> {
    if exists|k: int| 0 <= k < keys.len() && keys[k] == id {
        Some(choose|k: int| 0 <= k < keys.len() && keys[k] == id && forall|m: int| 0 <= m < k ==> keys[m] != id)
    } else {
        None
    }
}

/// The value of the first entry with key `id`, if any.
pub open spec fn value_for<V>(s: Seq<(Seq<char>, V)>, id: Seq<char>) -> Option<V> {
    match first_key(keys_of(s), id) {
        Some(k) => Some(s[k].1),
        None => None,
    }
}

/// The log lines kept for `id` (the first entry with that id), or none.
pub open spec fn logs_for(logs: Seq<(Seq<char>, Seq<Seq<char>>)>, id: Seq<char>) -> Seq<Seq<char>> {
    match value_for(logs, id) {
        Some(l) => l,
        None => Seq::empty(),
    }
}

/// The first key `id` is at `i` when no earlier key is `id`.
pub proof fn lemma_first_key_at(keys: Seq<Seq<char>>, id: Seq<char>, i: int)
    requires
        0 <= i < keys.len(),
        keys[i] == id,
        forall|m: int| 0 <= m < i ==> keys[m] != id,
    ensures
        first_key(keys, id) == Some(i),
{
    let k = choose|k: int| 0 <= k < keys.len() && keys[k] == id && forall|m: int| 0 <= m < k ==> keys[m] != id;
    assert(k == i) by {
        if k < i {
            assert(keys[k] != id);
        }
        if k > i {
            assert(keys[i] != id);
        }
    }
}

/// No first key `id` when no key is `id`.
pub proof fn lemma_first_key_none(keys: Seq<Seq<char>>, id: Seq<char>)
    requires
        forall|m: int| 0 <= m < keys.len() ==> keys[m] != id,
    ensures
        first_key(keys, id) is None,
{
}

/// The first key `id` is a key `id` with none before it.
pub proof fn lemma_first_key_found(keys: Seq<Seq<char>>, id: Seq<char>)
    ensures
        first_key(keys, id) matches Some(k) ==> 0 <= k < keys.len() && keys[k] == id && forall|m: int|
            0 <= m < k ==> keys[m] != id,
        first_key(keys, id) is None ==> forall|m: int| 0 <= m < keys.len() ==> keys[m] != id,
{
    if exists|k: int| 0 <= k < keys.len() && keys[k] == id {
        let w = choose|k: int| 0 <= k < keys.len() && keys[k] == id;
        lemma_least_key(keys, id, w);
    }
}

proof fn lemma_least_key(keys: Seq<Seq<char>>, id: Seq<char>, w: int)
    requires
        0 <= w < keys.len(),
        keys[w] == id,
    ensures
        exists|k: int| 0 <= k < keys.len() && keys[k] == id && forall|m: int| 0 <= m < k ==> keys[m] != id,
    decreases w,
{
    if exists|m: int| 0 <= m < w && keys[m] == id {
        let m = choose|m: int| 0 <= m < w && keys[m] == id;
        lemma_least_key(keys, id, m);
    } else {
        assert(forall|m: int| 0 <= m < w ==> keys[m] != id);
    }
}

/// Adding a new key at the end leaves the first places of the other keys.
pub proof fn lemma_first_key_push(keys: Seq<Seq<char>>, id: Seq<char>, other: Seq<char>)
    requires
        forall|m: int| 0 <= m < keys.len() ==> keys[m] != id,
    ensures
        first_key(keys.push(id), id) == Some(keys.len() as int),
        other != id ==> first_key(keys.push(id), other) == first_key(keys, other),
{
    let pushed = keys.push(id);
    lemma_first_key_at(pushed, id, keys.len() as int);
    if other != id {
        lemma_first_key_found(keys, other);
        match first_key(keys, other) {
            Some(k) => {
                lemma_first_key_at(pushed, other, k);
            },
            None => {
                assert forall|m: int| 0 <= m < pushed.len() implies pushed[m] != other by {
                    if m < keys.len() {
                        assert(pushed[m] == keys[m]);
                    }
                }
                lemma_first_key_none(pushed, other);
            },
        }
    }
}

/// Stand-in for the core.
#[derive(Debug)]
pub struct MockCoreHandle {
    pub commands: Vec<CoreCommand>,
    pub containers: Vec<ContainerItem>,
    pub logs: Vec<(String, Vec<String>)>,
    pub exec_outputs: Vec<(String, String)>,
}

/// The plain values of the kept exec outputs.
pub open spec fn kept_outputs(l: Seq<(String, String)>) -> Seq<(Seq<char>, Seq<char>)> {
    l.map_values(|e: (String, String)| (e.0@, e.1@))
}

/// The plain values of the kept logs.
pub open spec fn kept_logs(l: Seq<(String, Vec<String>)>) -> Seq<(Seq<char>, Seq<Seq<char>>)> {
    l.map_values(|e: (String, Vec<String>)| (e.0@, e.1@.map_values(|s: String| s@)))
}

/// The offset of a test container's ports: its index, or 0 when the index
/// is no port number.
pub open spec fn port_offset(index: nat) -> nat {
    if index <= u16::MAX {
        index
    } else {
        0
    }
}

/// The test container with id `id` and index `index` (see
/// `MockCoreHandle::gen_item`).
pub open spec fn test_item(id: Seq<char>, index: nat) -> ContainerItemView {
    ContainerItemView {
        created: index as u64,
        id,
        image: "image_"@ + crate::fmt::decimal(index),
        is_oxker: false,
        name: "container_"@ + crate::fmt::decimal(index),
        ports: seq![
            PortView {
                ip: None,
                private: (port_offset(index) + 8000) as u16,
                public: Some((port_offset(index) + 9000) as u16),
            },
        ],
        state: State::Running(RunningState::Healthy),
        status: "Up 1 hour"@,
        cpu_stats: Seq::empty(),
        mem_stats: Seq::empty(),
        mem_limit: 0,
        rx: 0,
        tx: 0,
    }
}

impl MockCoreHandle {
    /// A test container: `container_<n>` from `image_<n>`, running, with
    /// private port 8000+n published on 9000+n (n taken as 0 when it is no
    /// port number; see `test_item`).
    pub fn gen_item(id: &ContainerId, index: usize) -> (c: ContainerItem)
        requires
            port_offset(index as nat) + 9000 <= u16::MAX,
        ensures
            c@ == test_item(id@, index as nat),
    {
        let offset: u16 = if index <= 65535 {
            index as u16
        } else {
            0
        };
        let mut name = String::new();
        crate::fmt::push_str(&mut name, "container_");
        crate::fmt::push_decimal(&mut name, index as u64);
        let mut image = String::new();
        crate::fmt::push_str(&mut image, "image_");
        crate::fmt::push_decimal(&mut image, index as u64);
        let mut status = String::new();
        crate::fmt::push_str(&mut status, "Up 1 hour");
        let ports = vec![ContainerPorts { ip: None, private: offset + 8000, public: Some(offset + 9000) }];
        let c = ContainerItem::new(
            index as u64,
            id.duplicate(),
            image,
            false,
            name,
            ports,
            State::Running(RunningState::Healthy),
            status,
        );
        proof {
            assert(ports_view(ports@) =~= test_item(id@, index as nat).ports);
        }
        c
    }

    /// A stand-in with three test containers (`test1` to `test3`), no
    /// commands, logs or exec output.
    pub fn new() -> (m: Self)
        ensures
            m.commands@.len() == 0,
            items_view(m.containers@) == seq![
                test_item("test1"@, 1),
                test_item("test2"@, 2),
                test_item("test3"@, 3),
            ],
            m.logs@.len() == 0,
            m.exec_outputs@.len() == 0,
    {
        let mut t1 = String::new();
        crate::fmt::push_str(&mut t1, "test1");
        let mut t2 = String::new();
        crate::fmt::push_str(&mut t2, "test2");
        let mut t3 = String::new();
        crate::fmt::push_str(&mut t3, "test3");
        let c1 = Self::gen_item(&ContainerId::from_string(t1), 1);
        let c2 = Self::gen_item(&ContainerId::from_string(t2), 2);
        let c3 = Self::gen_item(&ContainerId::from_string(t3), 3);
        let containers = vec![c1, c2, c3];
        proof {
            reveal_strlit("test1");
            reveal_strlit("test2");
            reveal_strlit("test3");
            assert(items_view(containers@) =~= seq![c1@, c2@, c3@]);
        }
        MockCoreHandle { commands: Vec::new(), containers, logs: Vec::new(), exec_outputs: Vec::new() }
    }

    /// Add a test container.
    pub fn add_container(&mut self, container: ContainerItem)
        ensures
            items_view(final(self).containers@) == items_view(old(self).containers@).push(container@),
            final(self).commands@ == old(self).commands@,
    {
        let ghost c = container@;
        let ghost before = self.containers@;
        self.containers.push(container);
        proof {
            assert(items_view(self.containers@) =~= items_view(before).push(c));
        }
    }

    /// Replace the test containers.
    pub fn set_containers(&mut self, containers: Vec<ContainerItem>)
        ensures
            final(self).containers@ == containers@,
            final(self).commands@ == old(self).commands@,
    {
        self.containers = containers;
    }

    /// Keep `logs` as the log lines of the container `container_id`,
    /// replacing earlier ones; the lines of other containers stay.
    pub fn add_logs(&mut self, container_id: &str, logs: Vec<String>)
        ensures
            logs_for(kept_logs(final(self).logs@), container_id@) == logs@.map_values(|s: String| s@),
            forall|other: Seq<char>|
                other != container_id@ ==> #[trigger] logs_for(kept_logs(final(self).logs@), other) == logs_for(
                    kept_logs(old(self).logs@),
                    other,
                ),
            final(self).commands@ == old(self).commands@,
            final(self).containers@ == old(self).containers@,
            final(self).exec_outputs@ == old(self).exec_outputs@,
    {
        let ghost kv = kept_logs(self.logs@);
        let ghost lv = logs@.map_values(|s: String| s@);
        let mut i: usize = 0;
        while i < self.logs.len()
            invariant
                kv == kept_logs(self.logs@),
                kv == kept_logs(old(self).logs@),
                lv == logs@.map_values(|s: String| s@),
                i <= self.logs@.len(),
                forall|m: int| 0 <= m < i ==> kv[m].0 != container_id@,
                self.commands@ == old(self).commands@,
                self.containers@ == old(self).containers@,
                self.exec_outputs@ == old(self).exec_outputs@,
            decreases self.logs@.len() - i,
        {
            if text_eq(self.logs[i].0.as_str(), container_id) {
                let key = self.logs[i].0.clone();
                let entry = (key, logs);
                let ghost ev = entry;
                self.logs.set(i, entry);
                proof {
                    let nv = kept_logs(self.logs@);
                    assert(self.logs@[i as int] == ev);
                    assert(nv[i as int] == (ev.0@, ev.1@.map_values(|s: String| s@)));
                    assert(keys_of(nv) =~= keys_of(kv));
                    lemma_first_key_at(keys_of(kv), container_id@, i as int);
                    assert(nv[i as int].1 =~= lv);
                    assert forall|other: Seq<char>| other != container_id@ implies #[trigger] logs_for(nv, other)
                        == logs_for(kv, other) by {
                        lemma_first_key_found(keys_of(kv), other);
                        match first_key(keys_of(kv), other) {
                            Some(k) => {
                                assert(keys_of(kv)[k] == kv[k].0);
                                assert(k != i);
                                assert(nv[k] == kv[k]);
                            },
                            None => {},
                        }
                    }
                }
                return;
            }
            proof {
                assert(kv[i as int].0 == self.logs@[i as int].0@);
            }
            i = i + 1;
        }
        let mut key = String::new();
        crate::fmt::push_str(&mut key, container_id);
        self.logs.push((key, logs));
        proof {
            let nv = kept_logs(self.logs@);
            assert(keys_of(nv) =~= keys_of(kv).push(container_id@));
            assert forall|m: int| 0 <= m < keys_of(kv).len() implies keys_of(kv)[m] != container_id@ by {
                assert(keys_of(kv)[m] == kv[m].0);
            }
            lemma_first_key_push(keys_of(kv), container_id@, container_id@);
            assert(nv[kv.len() as int].1 =~= lv);
            assert forall|other: Seq<char>| other != container_id@ implies #[trigger] logs_for(nv, other)
                == logs_for(kv, other) by {
                lemma_first_key_push(keys_of(kv), container_id@, other);
                lemma_first_key_found(keys_of(kv), other);
                match first_key(keys_of(kv), other) {
                    Some(k) => {
                        assert(nv[k] == kv[k]);
                    },
                    None => {},
                }
            }
        }
    }

    /// Keep `output` as what an exec in the container `container_id`
    /// prints, replacing an earlier one; the outputs of other containers
    /// stay.
    pub fn set_exec_output(&mut self, container_id: &str, output: &str)
        ensures
            value_for(kept_outputs(final(self).exec_outputs@), container_id@) == Some(output@),
            forall|other: Seq<char>|
                other != container_id@ ==> #[trigger] value_for(kept_outputs(final(self).exec_outputs@), other)
                    == value_for(kept_outputs(old(self).exec_outputs@), other),
            final(self).commands@ == old(self).commands@,
            final(self).containers@ == old(self).containers@,
            final(self).logs@ == old(self).logs@,
    {
        let ghost kv = kept_outputs(self.exec_outputs@);
        let mut text = String::new();
        crate::fmt::push_str(&mut text, output);
        let mut i: usize = 0;
        while i < self.exec_outputs.len()
            invariant
                kv == kept_outputs(self.exec_outputs@),
                kv == kept_outputs(old(self).exec_outputs@),
                i <= self.exec_outputs@.len(),
                forall|m: int| 0 <= m < i ==> kv[m].0 != container_id@,
                text@ == output@,
                self.commands@ == old(self).commands@,
                self.containers@ == old(self).containers@,
                self.logs@ == old(self).logs@,
            decreases self.exec_outputs@.len() - i,
        {
            if text_eq(self.exec_outputs[i].0.as_str(), container_id) {
                let key = self.exec_outputs[i].0.clone();
                self.exec_outputs.set(i, (key, text));
                proof {
                    let nv = kept_outputs(self.exec_outputs@);
                    assert(keys_of(nv) =~= keys_of(kv));
                    lemma_first_key_at(keys_of(kv), container_id@, i as int);
                    assert forall|other: Seq<char>| other != container_id@ implies #[trigger] value_for(nv, other)
                        == value_for(kv, other) by {
                        lemma_first_key_found(keys_of(kv), other);
                        match first_key(keys_of(kv), other) {
                            Some(k) => {
                                assert(keys_of(kv)[k] == kv[k].0);
                                assert(nv[k] == kv[k]);
                            },
                            None => {},
                        }
                    }
                }
                return;
            }
            proof {
                assert(kv[i as int].0 == self.exec_outputs@[i as int].0@);
            }
            i = i + 1;
        }
        let mut key = String::new();
        crate::fmt::push_str(&mut key, container_id);
        self.exec_outputs.push((key, text));
        proof {
            let nv = kept_outputs(self.exec_outputs@);
            assert(keys_of(nv) =~= keys_of(kv).push(container_id@));
            assert forall|m: int| 0 <= m < keys_of(kv).len() implies keys_of(kv)[m] != container_id@ by {
                assert(keys_of(kv)[m] == kv[m].0);
            }
            lemma_first_key_push(keys_of(kv), container_id@, container_id@);
            assert forall|other: Seq<char>| other != container_id@ implies #[trigger] value_for(nv, other)
                == value_for(kv, other) by {
                lemma_first_key_push(keys_of(kv), container_id@, other);
                lemma_first_key_found(keys_of(kv), other);
                match first_key(keys_of(kv), other) {
                    Some(k) => {
                        assert(nv[k] == kv[k]);
                    },
                    None => {},
                }
            }
        }
    }

    /// The recorded commands.
    pub fn get_commands(&self) -> (c: Vec<CoreCommand>)
        ensures
            commands_view(c@) == commands_view(self.commands@),
    {
        let mut c: Vec<CoreCommand> = Vec::new();
        let mut i: usize = 0;
        while i < self.commands.len()
            invariant
                i <= self.commands@.len(),
                commands_view(c@) == commands_view(self.commands@.take(i as int)),
            decreases self.commands@.len() - i,
        {
            let x = copy_command(&self.commands[i]);
            let ghost before = c@;
            c.push(x);
            proof {
                assert(commands_view(c@) =~= commands_view(before).push(x@));
                assert(commands_view(self.commands@.take(i + 1)) =~= commands_view(self.commands@.take(i as int)).push(self.commands@[i as int]@));
            }
            i = i + 1;
        }
        proof {
            assert(self.commands@.take(self.commands@.len() as int) =~= self.commands@);
        }
        c
    }

    /// Forget the recorded commands.
    pub fn clear_commands(&mut self)
        ensures
            final(self).commands@.len() == 0,
            final(self).containers@ == old(self).containers@,
    {
        self.commands = Vec::new();
    }
}

/// A copy of a command.
pub fn copy_command(c: &CoreCommand) -> (r: CoreCommand)
    ensures
        r@ == c@,
{
    match c {
        CoreCommand::StartContainer(s) => CoreCommand::StartContainer(s.clone()),
        CoreCommand::StopContainer(s) => CoreCommand::StopContainer(s.clone()),
        CoreCommand::PauseContainer(s) => CoreCommand::PauseContainer(s.clone()),
        CoreCommand::UnpauseContainer(s) => CoreCommand::UnpauseContainer(s.clone()),
        CoreCommand::RestartContainer(s) => CoreCommand::RestartContainer(s.clone()),
        CoreCommand::RemoveContainer(s) => CoreCommand::RemoveContainer(s.clone()),
        CoreCommand::SortContainers(f, o) => CoreCommand::SortContainers(*f, *o),
        CoreCommand::FilterContainers(s) => CoreCommand::FilterContainers(s.clone()),
        CoreCommand::RefreshContainers => CoreCommand::RefreshContainers,
        CoreCommand::RefreshLogs(s) => CoreCommand::RefreshLogs(s.clone()),
        CoreCommand::ExecuteCommand { container_id, command } => {
            let mut cmd: Vec<String> = Vec::new();
            let mut i: usize = 0;
            while i < command.len()
                invariant
                    i <= command@.len(),
                    cmd@.len() == i,
                    forall|m: int| 0 <= m < i ==> #[trigger] cmd@[m]@ == command@[m]@,
                decreases command@.len() - i,
            {
                cmd.push(command[i].clone());
                i = i + 1;
            }
            proof {
                assert(cmd@.map_values(|x: String| x@) =~= command@.map_values(|x: String| x@));
            }
            CoreCommand::ExecuteCommand { container_id: container_id.clone(), command: cmd }
        },
    }
}

/// The reply fits the command (see `MockCoreHandle::execute_command`).
pub open spec fn reply_fits(
    r: MockReply,
    c: CoreCommandView,
    items: Seq<ContainerItemView>,
    logs: Seq<(Seq<char>, Seq<Seq<char>>)>,
) -> bool {
    match c {
        CoreCommandView::RefreshContainers => r matches MockReply::ContainerList(l) && events_view(l@)
            == items.map_values(|x: ContainerItemView| published(x)),
        CoreCommandView::RefreshLogs(id) => r matches MockReply::Logs { container_id, logs: ls } && container_id@ == id
            && ls@.map_values(|x: LogLine| x.message@) == logs_for(logs, id),
        CoreCommandView::StartContainer(_) | CoreCommandView::StopContainer(_) | CoreCommandView::RestartContainer(_)
        | CoreCommandView::PauseContainer(_) | CoreCommandView::UnpauseContainer(_)
        | CoreCommandView::RemoveContainer(_) => r is Refresh,
        CoreCommandView::ExecuteCommand { .. } => r is Nothing,
        _ => r matches MockReply::Forward(x) && x@ == c,
    }
}

impl MockCoreHandle {
    /// Put the container `id` (the first with that id) in a new state.
    fn set_state(&mut self, id: &str, state: State, status: &str)
        ensures
            items_view(final(self).containers@) == with_state(items_view(old(self).containers@), id@, state, status@),
            final(self).commands@ == old(self).commands@,
            final(self).logs@ == old(self).logs@,
    {
        let ghost v = items_view(self.containers@);
        match crate::ui_state::UIContainerState::position_of(&self.containers, id) {
            Some(i) => {
                let mut c = self.containers[i].duplicate();
                c.state = state;
                let mut st = String::new();
                crate::fmt::push_str(&mut st, status);
                c.status = st;
                let ghost cv = c@;
                self.containers.set(i, c);
                proof {
                    assert(cv == ContainerItemView { state, status: status@, ..v[i as int] });
                    assert(items_view(self.containers@) =~= v.update(i as int, cv));
                }
            },
            None => {},
        }
    }

    /// Drop the containers with the id `id`.
    fn remove(&mut self, id: &str)
        ensures
            items_view(final(self).containers@) == items_view(old(self).containers@).filter(other_id(id@)),
            final(self).commands@ == old(self).commands@,
            final(self).logs@ == old(self).logs@,
    {
        let ghost v = items_view(self.containers@);
        let mut kept: Vec<ContainerItem> = Vec::new();
        let mut i: usize = 0;
        proof {
            assert(v.take(0) =~= Seq::<ContainerItemView>::empty());
            reveal_with_fuel(Seq::<_>::filter, 1);
        }
        while i < self.containers.len()
            invariant
                v == items_view(self.containers@),
                i <= self.containers@.len(),
                items_view(kept@) == v.take(i as int).filter(other_id(id@)),
            decreases self.containers@.len() - i,
        {
            let ghost before = kept@;
            let keep = !text_eq(self.containers[i].id.get(), id);
            if keep {
                kept.push(self.containers[i].duplicate());
            }
            proof {
                let t = v.take(i + 1);
                assert(t.drop_last() =~= v.take(i as int));
                reveal_with_fuel(Seq::<_>::filter, 1);
                if keep {
                    assert(items_view(kept@) =~= items_view(before).push(v[i as int]));
                } else {
                    assert(items_view(kept@) =~= items_view(before));
                }
            }
            i = i + 1;
        }
        proof {
            assert(v.take(v.len() as int) =~= v);
        }
        self.containers = kept;
    }

    /// The containers as the core publishes them.
    fn publish(&self) -> (l: Vec<EventContainerItem>)
        ensures
            events_view(l@) == items_view(self.containers@).map_values(|x: ContainerItemView| published(x)),
    {
        let ghost v = items_view(self.containers@);
        let mut l: Vec<EventContainerItem> = Vec::new();
        let mut i: usize = 0;
        while i < self.containers.len()
            invariant
                v == items_view(self.containers@),
                i <= self.containers@.len(),
                events_view(l@) == v.take(i as int).map_values(|x: ContainerItemView| published(x)),
            decreases self.containers@.len() - i,
        {
            let c = &self.containers[i];
            let mut st = String::new();
            crate::fmt::push_str(&mut st, c.state.as_str());
            let e = EventContainerItem {
                id: c.id.id.clone(),
                name: c.name.clone(),
                image: c.image.clone(),
                state: st,
                status: c.status.clone(),
                ports: duplicate_ports(&c.ports),
            };
            let ghost before = l@;
            l.push(e);
            proof {
                assert(v[i as int] == c@);
                assert(events_view(l@) =~= events_view(before).push(e@));
                assert(v.take(i + 1).map_values(|x: ContainerItemView| published(x)) =~= v.take(i as int).map_values(|x: ContainerItemView| published(x)).push(published(v[i as int])));
            }
            i = i + 1;
        }
        proof {
            assert(v.take(v.len() as int) =~= v);
        }
        l
    }

    /// The log lines kept for `id`, as log lines.
    fn logs_of(&self, id: &str) -> (r: Vec<LogLine>)
        ensures
            r@.map_values(|x: LogLine| x.message@) == logs_for(kept_logs(self.logs@), id@),
    {
        let ghost kv = kept_logs(self.logs@);
        let mut i: usize = 0;
        while i < self.logs.len()
            invariant
                kv == kept_logs(self.logs@),
                i <= self.logs@.len(),
                forall|m: int| 0 <= m < i ==> kv[m].0 != id@,
            decreases self.logs@.len() - i,
        {
            if text_eq(self.logs[i].0.as_str(), id) {
                let lines = &self.logs[i].1;
                let mut r: Vec<LogLine> = Vec::new();
                let mut j: usize = 0;
                while j < lines.len()
                    invariant
                        j <= lines@.len(),
                        r@.map_values(|x: LogLine| x.message@) == lines@.take(j as int).map_values(|s: String| s@),
                    decreases lines@.len() - j,
                {
                    let ghost before = r@;
                    let line = LogLine { message: lines[j].clone() };
                    r.push(line);
                    proof {
                        assert(r@.map_values(|x: LogLine| x.message@) =~= before.map_values(|x: LogLine| x.message@).push(lines@[j as int]@));
                        assert(lines@.take(j + 1).map_values(|s: String| s@) =~= lines@.take(j as int).map_values(|s: String| s@).push(lines@[j as int]@));
                    }
                    j = j + 1;
                }
                proof {
                    assert(lines@.take(lines@.len() as int) =~= lines@);
                    assert(kv[i as int].0 == id@);
                    lemma_first_key_at(keys_of(kv), id@, i as int);
                }
                return r;
            }
            proof {
                assert(kv[i as int].0 == self.logs@[i as int].0@);
            }
            i = i + 1;
        }
        let r: Vec<LogLine> = Vec::new();
        proof {
            assert(r@.map_values(|x: LogLine| x.message@) =~= Seq::<Seq<char>>::empty());
            assert forall|m: int| 0 <= m < keys_of(kv).len() implies keys_of(kv)[m] != id@ by {
                assert(keys_of(kv)[m] == kv[m].0);
            }
            lemma_first_key_none(keys_of(kv), id@);
        }
        r
    }

    /// Record a command and act on it as the core would: a refresh answers
    /// with the container list, a log refresh with the container's logs;
    /// start, stop, restart, pause, unpause and remove change the container
    /// and ask for a refresh; an exec answers nothing; any other command is
    /// passed on (see `mock_after`, `reply_fits`).
    pub fn execute_command(&mut self, command: CoreCommand) -> (r: MockReply)
        ensures
            commands_view(final(self).commands@) == commands_view(old(self).commands@).push(command@),
            items_view(final(self).containers@) == mock_after(items_view(old(self).containers@), command@),
            reply_fits(r, command@, items_view(old(self).containers@), kept_logs(old(self).logs@)),
            final(self).logs@ == old(self).logs@,
    {
        let ghost before = self.commands@;
        let recorded = copy_command(&command);
        self.commands.push(recorded);
        proof {
            assert(commands_view(self.commands@) =~= commands_view(before).push(command@));
        }
        match command {
            CoreCommand::RefreshContainers => MockReply::ContainerList(self.publish()),
            CoreCommand::RefreshLogs(id) => {
                let logs = self.logs_of(id.as_str());
                MockReply::Logs { container_id: id, logs }
            },
            CoreCommand::StartContainer(id) => {
                self.set_state(id.as_str(), State::Running(RunningState::Healthy), "Up 1 second");
                MockReply::Refresh
            },
            CoreCommand::StopContainer(id) => {
                self.set_state(id.as_str(), State::Exited, "Exited (0) 1 second ago");
                MockReply::Refresh
            },
            CoreCommand::RestartContainer(id) => {
                self.set_state(id.as_str(), State::Running(RunningState::Healthy), "Up 1 second");
                MockReply::Refresh
            },
            CoreCommand::PauseContainer(id) => {
                self.set_state(id.as_str(), State::Paused, "Up 1 minute (Paused)");
                MockReply::Refresh
            },
            CoreCommand::UnpauseContainer(id) => {
                self.set_state(id.as_str(), State::Running(RunningState::Healthy), "Up 1 minute");
                MockReply::Refresh
            },
            CoreCommand::RemoveContainer(id) => {
                self.remove(id.as_str());
                MockReply::Refresh
            },
            CoreCommand::ExecuteCommand { .. } => MockReply::Nothing,
            other => MockReply::Forward(other),
        }
    }
}

} // verus!
