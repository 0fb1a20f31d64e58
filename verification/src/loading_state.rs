//! Bookkeeping of loading operations: which are running, since when, and
//! counters for debugging.
use vstd::prelude::*;
use crate::fmt::{decimal, push_decimal, push_str};
use crate::idset::{map_where, stamp_age};
use std::collections::HashMap;
use vstd::std_specs::hash::spec_hash_map_iter;
use vstd::std_specs::iter::IteratorSpec;
use crate::ids::{duration_debug, duration_debug_string, uuid_hyphenated, uuid_string};

verus! {

/// Configuration for loading state management; durations are in milliseconds.
#[derive(Debug, Clone, Copy, PartialEq, Eq, Structural)]
pub struct LoadingConfig {
    /// Maximum time a loading operation can be tracked before automatic cleanup.
    pub max_duration: u64,
    /// Interval for periodic health checks.
    pub health_check_interval: u64,
    /// Maximum number of concurrent loading operations before warning.
    pub max_concurrent_warning: usize,
}

impl Default for LoadingConfig {
    fn default() -> (c: Self)
        ensures
            c == (LoadingConfig {
                max_duration: 300_000,
                health_check_interval: 30_000,
                max_concurrent_warning: 10,
            }),
    {
        LoadingConfig { max_duration: 300_000, health_check_interval: 30_000, max_concurrent_warning: 10 }
    }
}

/// Metadata for a loading operation.
#[derive(Debug, Clone)]
pub struct LoadingOperation {
    /// Unique identifier for this operation.
    pub uuid: u128,
    /// When this operation started, in ms.
    pub started_at: u64,
    /// Optional description of what's loading.
    pub description: Option<String>,
    /// Whether this is part of an animation.
    pub animated: bool,
}

impl LoadingOperation {
    /// A copy of the operation.
    pub fn duplicate(&self) -> (o: Self)
        ensures
            o == *self,
    {
        LoadingOperation {
            uuid: self.uuid,
            started_at: self.started_at,
            description: match &self.description {
                Some(d) => Some(d.clone()),
                None => None,
            },
            animated: self.animated,
        }
    }
}

/// Counters for debugging.
#[derive(Debug, Clone, Copy, PartialEq, Eq, Structural)]
pub struct LoadingStats {
    pub total_started: usize,
    pub total_completed: usize,
    pub total_expired: usize,
    pub peak_concurrent: usize,
}

/// Unified loading state manager.
#[derive(Debug)]
pub struct LoadingStateManager {
    operations: HashMap<u128, LoadingOperation>,
    config: LoadingConfig,
    last_health_check: u64,
    stats: LoadingStats,
}

/// Which operations a health check at `now` keeps: those at most `max_age` old.
pub open spec fn fresh_at(now: u64, max_age: u64) -> spec_fn((u128, LoadingOperation)) -> bool {
    |e: (u128, LoadingOperation)| stamp_age(e.1.started_at, now) <= max_age
}

/// The error text for an operation `age` ms old.
pub open spec fn old_operation_message(uuid: u128, age: u64) -> Seq<char> {
    "Operation "@ + uuid_hyphenated(uuid) + " is extremely old: "@ + duration_debug(age)
}

/// The error text for too many operations.
pub open spec fn excessive_message(count: nat) -> Seq<char> {
    "Excessive number of operations: "@ + decimal(count)
}

/// The statistics line.
pub open spec fn stats_line(s: LoadingStats, active: nat) -> Seq<char> {
    "Loading stats: "@ + decimal(s.total_started as nat) + " started, "@ + decimal(
        s.total_completed as nat,
    ) + " completed, "@ + decimal(s.total_expired as nat) + " expired, "@ + decimal(active)
        + " active, "@ + decimal(s.peak_concurrent as nat) + " peak"@
}

impl LoadingStateManager {
    /// The running operations, by id.
    pub closed spec fn ops(&self) -> Map<u128, LoadingOperation> {
        self.operations@
    }

    /// The configuration.
    pub closed spec fn config_view(&self) -> LoadingConfig {
        self.config
    }

    /// When the last health check ran.
    pub closed spec fn last_check(&self) -> u64 {
        self.last_health_check
    }

    /// The counters.
    pub closed spec fn stats_view(&self) -> LoadingStats {
        self.stats
    }

    /// Each operation is kept under its own id, and there are finitely many.
    pub closed spec fn wf(&self) -> bool {
        &&& self.operations@.dom().finite()
        &&& forall|k: u128| #[trigger] self.operations@.contains_key(k) ==> self.operations@[k].uuid == k
    }

    /// The number of running operations.
    pub open spec fn count(&self) -> nat {
        self.ops().dom().len()
    }

    /// A manager with no operation, created at `now` (ms).
    pub fn new(config: LoadingConfig, now: u64) -> (m: Self)
        ensures
            m.wf(),
            m.ops() == Map::<u128, LoadingOperation>::empty(),
            m.config_view() == config,
            m.last_check() == now,
            m.stats_view() == (LoadingStats {
                total_started: 0,
                total_completed: 0,
                total_expired: 0,
                peak_concurrent: 0,
            }),
    {
        LoadingStateManager {
            operations: HashMap::new(),
            config,
            last_health_check: now,
            stats: LoadingStats {
                total_started: 0,
                total_completed: 0,
                total_expired: 0,
                peak_concurrent: 0,
            },
        }
    }

    /// A well-formed manager tracks finitely many operations, so its count
    /// is the size of its set of ids.
    pub proof fn lemma_ops_finite(&self)
        requires
            self.wf(),
        ensures
            self.ops().dom().finite(),
    {
    }

    /// The ids of the operations more than `max_age` ms old at `now`, each once.
    fn expired_ids(&self, now: u64, max_age: u64) -> (ids: Vec<u128>)
        ensures
            ids@.no_duplicates(),
            forall|k: u128|
                ids@.contains(k) <==> self.ops().contains_key(k) && stamp_age(self.ops()[k].started_at, now)
                    > max_age,
    {
        broadcast use vstd::std_specs::hash::group_hash_axioms;

        let mut ids: Vec<u128> = Vec::new();
        for e in it: self.operations.iter()
            invariant
                it.seq() == spec_hash_map_iter(&self.operations).remaining(),
                it.seq().no_duplicates(),
                ids@.no_duplicates(),
                forall|k: u128|
                    ids@.contains(k) <==> exists|j: int|
                        0 <= j < it.index() && *it.seq()[j].0 == k && stamp_age(it.seq()[j].1.started_at, now)
                            > max_age,
        {
            let ghost i = it.index();
            let ghost before = ids@;
            let (k, op) = e;
            proof {
                assert(it.seq()[i] == e);
            }
            let at = op.started_at;
            if !(at >= now || now - at <= max_age) {
                proof {
                    assert(!before.contains(*k)) by {
                        if before.contains(*k) {
                            let j = choose|j: int|
                                0 <= j < i && *it.seq()[j].0 == *k && stamp_age(it.seq()[j].1.started_at, now)
                                    > max_age;
                            assert(self.ops()[*it.seq()[j].0] == *it.seq()[j].1);
                            assert(self.ops()[*it.seq()[i].0] == *it.seq()[i].1);
                            assert(it.seq()[j] == it.seq()[i]);
                        }
                    }
                }
                ids.push(*k);
            }
            proof {
                assert forall|kk: u128|
                    ids@.contains(kk) <==> exists|j: int|
                        0 <= j < i + 1 && *it.seq()[j].0 == kk && stamp_age(it.seq()[j].1.started_at, now)
                            > max_age by {
                    if ids@.contains(kk) {
                        let m = choose|m: int| 0 <= m < ids@.len() && ids@[m] == kk;
                        if m < before.len() {
                            assert(before[m] == kk);
                            assert(before.contains(kk));
                        } else {
                            assert(*it.seq()[i].0 == kk);
                        }
                    }
                    if exists|j: int|
                        0 <= j < i + 1 && *it.seq()[j].0 == kk && stamp_age(it.seq()[j].1.started_at, now)
                            > max_age {
                        let j = choose|j: int|
                            0 <= j < i + 1 && *it.seq()[j].0 == kk && stamp_age(it.seq()[j].1.started_at, now)
                                > max_age;
                        if j == i {
                            assert(ids@[ids@.len() - 1] == kk);
                        } else {
                            assert(before.contains(kk));
                            let m = choose|m: int| 0 <= m < before.len() && before[m] == kk;
                            assert(ids@[m] == kk);
                        }
                    }
                }
            }
        }
        ids
    }

    /// Drop the operations more than `max_age` ms old at `now`, returning how
    /// many went.
    fn expire(&mut self, now: u64, max_age: u64) -> (gone: usize)
        requires
            old(self).wf(),
        ensures
            final(self).wf(),
            final(self).ops() == map_where(old(self).ops(), fresh_at(now, max_age)),
            final(self).count() + gone == old(self).count(),
            final(self).config_view() == old(self).config_view(),
            final(self).last_check() == old(self).last_check(),
            final(self).stats_view() == old(self).stats_view(),
    {
        broadcast use vstd::std_specs::hash::group_hash_axioms;

        let ids = self.expired_ids(now, max_age);
        let ghost start = self.ops();
        let n = ids.len();
        let mut i: usize = 0;
        while i < n
            invariant
                n == ids@.len(),
                i <= n,
                ids@.no_duplicates(),
                forall|k: u128|
                    ids@.contains(k) <==> start.contains_key(k) && stamp_age(start[k].started_at, now) > max_age,
                start == old(self).ops(),
                start.dom().finite(),
                self.wf(),
                self.config_view() == old(self).config_view(),
                self.last_check() == old(self).last_check(),
                self.stats_view() == old(self).stats_view(),
                self.ops() == Map::new(
                    |k: u128| start.contains_key(k) && !(exists|j: int| 0 <= j < i && ids@[j] == k),
                    |k: u128| start[k],
                ),
                self.count() + i == start.dom().len(),
            decreases n - i,
        {
            let k = ids[i];
            proof {
                assert(ids@.contains(k));
                assert(self.ops().contains_key(k)) by {
                    if exists|j: int| 0 <= j < i && ids@[j] == k {
                        let j = choose|j: int| 0 <= j < i && ids@[j] == k;
                        assert(ids@[j] == ids@[i as int]);
                    }
                }
            }
            let ghost prev = self.ops();
            self.operations.remove(&k);
            proof {
                assert(self.ops() == prev.remove(k));
                assert(self.ops().dom() =~= prev.dom().remove(k));
                assert(self.ops() =~= Map::new(
                    |kk: u128| start.contains_key(kk) && !(exists|j: int| 0 <= j < i + 1 && ids@[j] == kk),
                    |kk: u128| start[kk],
                )) by {
                    assert forall|kk: u128|
                        #[trigger] self.ops().contains_key(kk) == (start.contains_key(kk) && !(exists|j: int|
                            0 <= j < i + 1 && ids@[j] == kk)) by {
                        if kk == k {
                            assert(ids@[i as int] == kk);
                        } else if exists|j: int| 0 <= j < i + 1 && ids@[j] == kk {
                            let j = choose|j: int| 0 <= j < i + 1 && ids@[j] == kk;
                            assert(j != i);
                        }
                    }
                }
            }
            i = i + 1;
        }
        proof {
            let p = fresh_at(now, max_age);
            assert forall|kk: u128|
                #[trigger] self.ops().contains_key(kk) == (start.contains_key(kk) && p((kk, start[kk]))) by {
                assert((exists|j: int| 0 <= j < n && ids@[j] == kk) == ids@.contains(kk)) by {
                    if ids@.contains(kk) {
                        let j = choose|j: int| 0 <= j < ids@.len() && ids@[j] == kk;
                    }
                }
            }
            assert(self.ops() =~= map_where(start, p));
        }
        n
    }

    /// Start tracking operation `uuid` at `now` (replacing an earlier one with
    /// the same id), count it, raise the peak, and run a health check when the
    /// interval since the last one has passed.
    pub fn start_loading(&mut self, uuid: u128, description: Option<&str>, animated: bool, now: u64)
        requires
            old(self).wf(),
            old(self).stats_view().total_started < usize::MAX,
            old(self).stats_view().total_expired + old(self).count() + 1 <= usize::MAX,
        ensures
            final(self).wf(),
            final(self).ops().contains_key(uuid),
            ({
                let op = final(self).ops()[uuid];
                &&& op.uuid == uuid
                &&& op.started_at == now
                &&& op.animated == animated
                &&& match (op.description, description) {
                    (Some(a), Some(b)) => a@ == b@,
                    (None, None) => true,
                    _ => false,
                }
            }),
            ({
                let started = old(self).ops().insert(uuid, final(self).ops()[uuid]);
                let peak = if started.dom().len() > old(self).stats_view().peak_concurrent {
                    started.dom().len()
                } else {
                    old(self).stats_view().peak_concurrent as nat
                };
                let check = now >= old(self).last_check() && now - old(self).last_check()
                    >= old(self).config_view().health_check_interval;
                &&& final(self).stats_view().total_started == old(self).stats_view().total_started + 1
                &&& final(self).stats_view().peak_concurrent == peak
                &&& final(self).stats_view().total_completed == old(self).stats_view().total_completed
                &&& final(self).config_view() == old(self).config_view()
                &&& if check {
                    &&& final(self).ops() == map_where(
                        started,
                        fresh_at(now, old(self).config_view().max_duration),
                    )
                    &&& final(self).last_check() == now
                    &&& final(self).stats_view().total_expired == old(
                        self,
                    ).stats_view().total_expired + (started.dom().len() - final(self).count())
                } else {
                    &&& final(self).ops() == started
                    &&& final(self).last_check() == old(self).last_check()
                    &&& final(self).stats_view().total_expired == old(self).stats_view().total_expired
                }
            }),
    {
        broadcast use vstd::std_specs::hash::group_hash_axioms;

        let description = match description {
            Some(d) => Some(d.to_owned()),
            None => None,
        };
        let op = LoadingOperation { uuid, started_at: now, description, animated };
        self.operations.insert(uuid, op);
        proof {
            assert(self.ops() == old(self).ops().insert(uuid, self.ops()[uuid]));
        }
        self.stats.total_started = self.stats.total_started + 1;
        let len = self.operations.len();
        if len > self.stats.peak_concurrent {
            self.stats.peak_concurrent = len;
        }
        self.maybe_health_check(now);
    }

    /// Stop tracking operation `uuid`; true (and counted as completed) when it
    /// was tracked.
    pub fn stop_loading(&mut self, uuid: u128) -> (found: bool)
        requires
            old(self).wf(),
            old(self).stats_view().total_completed < usize::MAX,
        ensures
            final(self).wf(),
            found == old(self).ops().contains_key(uuid),
            final(self).ops() == old(self).ops().remove(uuid),
            final(self).count() == old(self).count() - (if found { 1int } else { 0int }),
            final(self).stats_view() == if found {
                LoadingStats {
                    total_completed: (old(self).stats_view().total_completed + 1) as usize,
                    ..old(self).stats_view()
                }
            } else {
                old(self).stats_view()
            },
            final(self).config_view() == old(self).config_view(),
            final(self).last_check() == old(self).last_check(),
    {
        broadcast use vstd::std_specs::hash::group_hash_axioms;

        let found = self.operations.contains_key(&uuid);
        self.operations.remove(&uuid);
        proof {
            assert(self.ops().dom() =~= old(self).ops().dom().remove(uuid));
        }
        if found {
            self.stats.total_completed = self.stats.total_completed + 1;
        }
        found
    }

    /// Whether any loading operation is running.
    pub fn is_loading(&self) -> (b: bool)
        requires
            self.wf(),
        ensures
            b == (self.count() > 0),
    {
        broadcast use vstd::std_specs::hash::group_hash_axioms;

        self.operations.len() > 0
    }

    /// The number of running operations.
    pub fn active_count(&self) -> (n: usize)
        requires
            self.wf(),
        ensures
            n == self.count(),
    {
        broadcast use vstd::std_specs::hash::group_hash_axioms;

        self.operations.len()
    }

    /// The ids of the running operations.
    pub fn active_uuids(&self) -> (v: Vec<u128>)
        requires
            self.wf(),
        ensures
            v@.no_duplicates(),
            v@.to_set() == self.ops().dom(),
    {
        broadcast use vstd::std_specs::hash::group_hash_axioms;

        let mut v: Vec<u128> = Vec::new();
        for e in it: self.operations.iter()
            invariant
                it.seq() == spec_hash_map_iter(&self.operations).remaining(),
                it.seq().no_duplicates(),
                v@.no_duplicates(),
                forall|k: u128| v@.contains(k) <==> exists|j: int| 0 <= j < it.index() && *it.seq()[j].0 == k,
        {
            let ghost i = it.index();
            let ghost before = v@;
            let (k, _) = e;
            proof {
                assert(it.seq()[i] == e);
                assert(!before.contains(*k)) by {
                    if before.contains(*k) {
                        let j = choose|j: int| 0 <= j < i && *it.seq()[j].0 == *k;
                        assert(self.ops()[*it.seq()[j].0] == *it.seq()[j].1);
                        assert(self.ops()[*it.seq()[i].0] == *it.seq()[i].1);
                        assert(it.seq()[j] == it.seq()[i]);
                    }
                }
            }
            v.push(*k);
            proof {
                assert forall|kk: u128| v@.contains(kk) <==> exists|j: int| 0 <= j < i + 1 && *it.seq()[j].0 == kk by {
                    if v@.contains(kk) {
                        let m = choose|m: int| 0 <= m < v@.len() && v@[m] == kk;
                        if m < before.len() {
                            assert(before[m] == kk);
                            assert(before.contains(kk));
                        } else {
                            assert(*it.seq()[i].0 == kk);
                        }
                    }
                    if exists|j: int| 0 <= j < i + 1 && *it.seq()[j].0 == kk {
                        let j = choose|j: int| 0 <= j < i + 1 && *it.seq()[j].0 == kk;
                        if j == i {
                            assert(v@[v@.len() - 1] == kk);
                        } else {
                            assert(before.contains(kk));
                            let m = choose|m: int| 0 <= m < before.len() && before[m] == kk;
                            assert(v@[m] == kk);
                        }
                    }
                }
            }
        }
        proof {
            assert forall|k: u128| #[trigger] v@.to_set().contains(k) == self.ops().dom().contains(k) by {
                if self.ops().contains_key(k) {
                    let ghost s = spec_hash_map_iter(&self.operations).remaining();
                    assert(s.contains((&k, &self.ops()[k])));
                    let j = choose|j: int| 0 <= j < s.len() && s[j] == (&k, &self.ops()[k]);
                    assert(*s[j].0 == k);
                }
            }
            assert(v@.to_set() =~= self.ops().dom());
        }
        v
    }

    /// Whether operation `uuid` is running.
    pub fn is_uuid_loading(&self, uuid: u128) -> (b: bool)
        ensures
            b == self.ops().contains_key(uuid),
    {
        broadcast use vstd::std_specs::hash::group_hash_axioms;

        self.operations.contains_key(&uuid)
    }

    /// The running operations that are part of an animation.
    pub fn animated_operations(&self) -> (v: Vec<LoadingOperation>)
        requires
            self.wf(),
        ensures
            forall|o: LoadingOperation|
                v@.contains(o) <==> (self.ops().contains_key(o.uuid) && self.ops()[o.uuid] == o
                    && o.animated),
            v@.no_duplicates(),
    {
        broadcast use vstd::std_specs::hash::group_hash_axioms;

        let mut v: Vec<LoadingOperation> = Vec::new();
        for e in it: self.operations.iter()
            invariant
                self.wf(),
                it.seq() == spec_hash_map_iter(&self.operations).remaining(),
                it.seq().no_duplicates(),
                v@.no_duplicates(),
                forall|o: LoadingOperation|
                    v@.contains(o) <==> exists|j: int| 0 <= j < it.index() && *it.seq()[j].1 == o && o.animated,
        {
            let ghost i = it.index();
            let ghost before = v@;
            let (_, op) = e;
            proof {
                assert(it.seq()[i] == e);
            }
            if op.animated {
                let o = op.duplicate();
                proof {
                    assert(!before.contains(o)) by {
                        if before.contains(o) {
                            let j = choose|j: int| 0 <= j < i && *it.seq()[j].1 == o && o.animated;
                            assert(self.ops().contains_key(*it.seq()[j].0));
                            assert(self.ops()[*it.seq()[j].0] == *it.seq()[j].1);
                            assert(self.ops().contains_key(*it.seq()[i].0));
                            assert(self.ops()[*it.seq()[i].0] == *it.seq()[i].1);
                            assert(*it.seq()[j].0 == o.uuid);
                            assert(*it.seq()[i].0 == o.uuid);
                            assert(it.seq()[j] == it.seq()[i]);
                        }
                    }
                }
                v.push(o);
            }
            proof {
                assert forall|p: LoadingOperation|
                    v@.contains(p) <==> exists|j: int| 0 <= j < i + 1 && *it.seq()[j].1 == p && p.animated by {
                    if v@.contains(p) {
                        let m = choose|m: int| 0 <= m < v@.len() && v@[m] == p;
                        if m < before.len() {
                            assert(before[m] == p);
                            assert(before.contains(p));
                        } else {
                            assert(*it.seq()[i].1 == p);
                        }
                    }
                    if exists|j: int| 0 <= j < i + 1 && *it.seq()[j].1 == p && p.animated {
                        let j = choose|j: int| 0 <= j < i + 1 && *it.seq()[j].1 == p && p.animated;
                        if j == i {
                            assert(v@[v@.len() - 1] == p);
                        } else {
                            assert(before.contains(p));
                            let m = choose|m: int| 0 <= m < before.len() && before[m] == p;
                            assert(v@[m] == p);
                        }
                    }
                }
            }
        }
        proof {
            let ghost s = spec_hash_map_iter(&self.operations).remaining();
            assert forall|o: LoadingOperation|
                v@.contains(o) <==> (self.ops().contains_key(o.uuid) && self.ops()[o.uuid] == o && o.animated) by {
                if v@.contains(o) {
                    let j = choose|j: int| 0 <= j < s.len() && *s[j].1 == o && o.animated;
                    assert(self.ops().contains_key(*s[j].0));
                    assert(self.ops()[*s[j].0] == *s[j].1);
                }
                if self.ops().contains_key(o.uuid) && self.ops()[o.uuid] == o && o.animated {
                    let k = o.uuid;
                    assert(s.contains((&k, &self.ops()[k])));
                    let j = choose|j: int| 0 <= j < s.len() && s[j] == (&k, &self.ops()[k]);
                    assert(*s[j].1 == o);
                }
            }
        }
        v
    }

    /// Run a health check at `now` when the interval since the last one has passed.
    fn maybe_health_check(&mut self, now: u64)
        requires
            old(self).wf(),
            old(self).stats_view().total_expired + old(self).count() <= usize::MAX,
        ensures
            final(self).wf(),
            final(self).config_view() == old(self).config_view(),
            final(self).stats_view().total_started == old(self).stats_view().total_started,
            final(self).stats_view().total_completed == old(self).stats_view().total_completed,
            final(self).stats_view().peak_concurrent == old(self).stats_view().peak_concurrent,
            if now >= old(self).last_check() && now - old(self).last_check() >= old(
                self,
            ).config_view().health_check_interval {
                &&& final(self).ops() == map_where(
                    old(self).ops(),
                    fresh_at(now, old(self).config_view().max_duration),
                )
                &&& final(self).last_check() == now
                &&& final(self).stats_view().total_expired == old(self).stats_view().total_expired
                    + (old(self).count() - final(self).count())
            } else {
                &&& final(self).ops() == old(self).ops()
                &&& final(self).last_check() == old(self).last_check()
                &&& final(self).stats_view().total_expired == old(self).stats_view().total_expired
            },
    {
        if now >= self.last_health_check && now - self.last_health_check
            >= self.config.health_check_interval {
            self.health_check(now);
            self.last_health_check = now;
        }
    }

    /// Drop the operations older than the maximum duration at `now`, counting
    /// them as expired.
    pub fn health_check(&mut self, now: u64)
        requires
            old(self).wf(),
            old(self).stats_view().total_expired + old(self).count() <= usize::MAX,
        ensures
            final(self).wf(),
            final(self).ops() == map_where(
                old(self).ops(),
                fresh_at(now, old(self).config_view().max_duration),
            ),
            final(self).stats_view() == (LoadingStats {
                total_expired: (old(self).stats_view().total_expired + (old(self).count()
                    - final(self).count())) as usize,
                ..old(self).stats_view()
            }),
            final(self).config_view() == old(self).config_view(),
            final(self).last_check() == old(self).last_check(),
            final(self).count() <= old(self).count(),
    {
        let max = self.config.max_duration;
        let gone = self.expire(now, max);
        self.stats.total_expired = self.stats.total_expired + gone;
    }

    /// Drop every operation.
    pub fn clear_all(&mut self)
        ensures
            final(self).wf(),
            final(self).ops() == Map::<u128, LoadingOperation>::empty(),
            final(self).stats_view() == old(self).stats_view(),
            final(self).config_view() == old(self).config_view(),
            final(self).last_check() == old(self).last_check(),
    {
        broadcast use vstd::std_specs::hash::group_hash_axioms;

        self.operations.clear();
    }

    /// The counters.
    pub fn stats(&self) -> (s: LoadingStats)
        ensures
            s == self.stats_view(),
    {
        self.stats
    }

    /// The counters as a line of text.
    pub fn get_stats(&self) -> (s: String)
        requires
            self.wf(),
        ensures
            s@ == stats_line(self.stats_view(), self.count()),
    {
        broadcast use vstd::std_specs::hash::group_hash_axioms;

        let mut s = String::new();
        push_str(&mut s, "Loading stats: ");
        push_decimal(&mut s, self.stats.total_started as u64);
        push_str(&mut s, " started, ");
        push_decimal(&mut s, self.stats.total_completed as u64);
        push_str(&mut s, " completed, ");
        push_decimal(&mut s, self.stats.total_expired as u64);
        push_str(&mut s, " expired, ");
        push_decimal(&mut s, self.operations.len() as u64);
        push_str(&mut s, " active, ");
        push_decimal(&mut s, self.stats.peak_concurrent as u64);
        push_str(&mut s, " peak");
        proof {
            assert(s@ =~= stats_line(self.stats_view(), self.count()));
        }
        s
    }

    /// Check invariants for debugging at `now`: an error when an operation is
    /// older than twice the maximum duration (naming one such operation), or
    /// when more than twice the warning number of operations run.
    pub fn check_invariants(&self, now: u64) -> (r: Result<(), String>)
        requires
            self.wf(),
            self.config_view().max_duration * 2 <= u64::MAX,
            self.config_view().max_concurrent_warning * 2 <= usize::MAX,
        ensures
            ({
                let limit = self.config_view().max_duration * 2;
                let too_old = exists|k: u128|
                    self.ops().contains_key(k) && stamp_age(self.ops()[k].started_at, now) > limit;
                match r {
                    Ok(()) => !too_old && self.count() <= self.config_view().max_concurrent_warning * 2,
                    Err(msg) => if too_old {
                        exists|k: u128|
                            self.ops().contains_key(k) && stamp_age(self.ops()[k].started_at, now)
                                > limit && msg@ == old_operation_message(
                                k,
                                stamp_age(self.ops()[k].started_at, now) as u64,
                            )
                    } else {
                        self.count() > self.config_view().max_concurrent_warning * 2
                            && msg@ == excessive_message(self.count())
                    },
                }
            }),
    {
        broadcast use vstd::std_specs::hash::group_hash_axioms;

        let limit = self.config.max_duration * 2;
        for e in it: self.operations.iter()
            invariant
                self.wf(),
                limit == self.config_view().max_duration * 2,
                it.seq() == spec_hash_map_iter(&self.operations).remaining(),
                forall|j: int| 0 <= j < it.index() ==> stamp_age(#[trigger] it.seq()[j].1.started_at, now) <= limit,
        {
            let ghost i = it.index();
            let (k, op) = e;
            proof {
                assert(it.seq()[i] == e);
            }
            let at = op.started_at;
            let age = now.saturating_sub(at);
            if age > limit {
                let id = *k;
                let mut msg = String::new();
                push_str(&mut msg, "Operation ");
                let t = uuid_string(id);
                push_str(&mut msg, t.as_str());
                push_str(&mut msg, " is extremely old: ");
                let d = duration_debug_string(age);
                push_str(&mut msg, d.as_str());
                proof {
                    assert(self.ops().contains_key(id));
                    assert(self.ops()[id] == *op);
                    assert(stamp_age(self.ops()[id].started_at, now) == age);
                    assert(msg@ =~= old_operation_message(id, age));
                }
                return Err(msg);
            }
        }
        proof {
            let ghost s = spec_hash_map_iter(&self.operations).remaining();
            assert forall|k: u128|
                self.ops().contains_key(k) implies stamp_age(self.ops()[k].started_at, now) <= limit by {
                assert(s.contains((&k, &self.ops()[k])));
                let j = choose|j: int| 0 <= j < s.len() && s[j] == (&k, &self.ops()[k]);
                assert(stamp_age(s[j].1.started_at, now) <= limit);
            }
        }
        if self.operations.len() > self.config.max_concurrent_warning * 2 {
            let mut msg = String::new();
            push_str(&mut msg, "Excessive number of operations: ");
            push_decimal(&mut msg, self.operations.len() as u64);
            proof {
                assert(msg@ =~= excessive_message(self.count()));
            }
            return Err(msg);
        }
        Ok(())
    }
}

} // verus!
