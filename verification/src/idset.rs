//! Small collections keyed by 128-bit ids (the numbers of UUIDs).
use vstd::prelude::*;
use std::collections::{HashMap, HashSet};
use vstd::std_specs::hash::spec_hash_map_iter;
use vstd::std_specs::iter::IteratorSpec;

verus! {

/// A set of ids, kept in a hash set.
#[derive(Debug)]
pub struct IdSet {
    items: HashSet<u128>,
}

impl IdSet {
    /// The ids in the set.
    pub closed spec fn view(&self) -> Set<u128> {
        self.items@
    }

    /// The set is finite.
    pub closed spec fn wf(&self) -> bool {
        self.items@.finite()
    }

    /// The empty set.
    pub fn new() -> (s: Self)
        ensures
            s.wf(),
            s@ == Set::<u128>::empty(),
    {
        IdSet { items: HashSet::new() }
    }

    /// Whether `id` is in the set.
    pub fn contains(&self, id: u128) -> (b: bool)
        ensures
            b == self@.contains(id),
    {
        broadcast use vstd::std_specs::hash::group_hash_axioms;

        self.items.contains(&id)
    }

    /// The number of ids in the set.
    pub fn len(&self) -> (n: usize)
        requires
            self.wf(),
        ensures
            n == self@.len(),
            self@.finite(),
    {
        broadcast use vstd::std_specs::hash::group_hash_axioms;

        self.items.len()
    }

    /// Whether the set is empty.
    pub fn is_empty(&self) -> (b: bool)
        requires
            self.wf(),
        ensures
            b == (self@ == Set::<u128>::empty()),
    {
        broadcast use vstd::std_specs::hash::group_hash_axioms;

        let n = self.items.len();
        proof {
            if n == 0 {
                self.items@.lemma_len0_is_empty();
            } else {
                assert(self@.len() != Set::<u128>::empty().len());
            }
        }
        n == 0
    }

    /// Add `id` to the set.
    pub fn insert(&mut self, id: u128)
        requires
            old(self).wf(),
        ensures
            final(self).wf(),
            final(self)@ == old(self)@.insert(id),
    {
        broadcast use vstd::std_specs::hash::group_hash_axioms;

        self.items.insert(id);
    }

    /// Take `id` out of the set.
    pub fn remove(&mut self, id: u128)
        requires
            old(self).wf(),
        ensures
            final(self).wf(),
            final(self)@ == old(self)@.remove(id),
    {
        broadcast use vstd::std_specs::hash::group_hash_axioms;

        self.items.remove(&id);
    }
}

} // verus!

verus! {

/// The entries of `m` whose (id, stamp) pair satisfies `p`.
pub open spec fn map_where<V>(m: Map<u128, V>, p: spec_fn((u128, V)) -> bool) -> Map<u128, V> {
    Map::new(|k: u128| m.contains_key(k) && p((k, m[k])), |k: u128| m[k])
}

/// A map from ids to timestamps, kept in a hash map.
#[derive(Debug)]
pub struct StampMap {
    entries: HashMap<u128, u64>,
}

impl StampMap {
    /// The stamp of each id in the map.
    pub closed spec fn view(&self) -> Map<u128, u64> {
        self.entries@
    }

    /// The map is finite.
    pub closed spec fn wf(&self) -> bool {
        self.entries@.dom().finite()
    }

    /// The empty map.
    pub fn new() -> (m: Self)
        ensures
            m.wf(),
            m@ == Map::<u128, u64>::empty(),
    {
        StampMap { entries: HashMap::new() }
    }

    /// Whether `id` has a stamp.
    pub fn contains_key(&self, id: u128) -> (b: bool)
        ensures
            b == self@.contains_key(id),
    {
        broadcast use vstd::std_specs::hash::group_hash_axioms;

        self.entries.contains_key(&id)
    }

    /// The number of ids with a stamp.
    pub fn len(&self) -> (n: usize)
        requires
            self.wf(),
        ensures
            n == self@.dom().len(),
            self@.dom().finite(),
    {
        broadcast use vstd::std_specs::hash::group_hash_axioms;

        self.entries.len()
    }

    /// Whether no id has a stamp.
    pub fn is_empty(&self) -> (b: bool)
        requires
            self.wf(),
        ensures
            b == (self@ == Map::<u128, u64>::empty()),
    {
        broadcast use vstd::std_specs::hash::group_hash_axioms;

        let n = self.entries.len();
        proof {
            if n == 0 {
                self.entries@.dom().lemma_len0_is_empty();
                assert(self@ =~= Map::<u128, u64>::empty());
            } else {
                assert(self@.dom().len() != Map::<u128, u64>::empty().dom().len());
            }
        }
        n == 0
    }

    /// Take the stamp of `id` out of the map.
    pub fn remove(&mut self, id: u128)
        requires
            old(self).wf(),
        ensures
            final(self).wf(),
            final(self)@ == old(self)@.remove(id),
    {
        broadcast use vstd::std_specs::hash::group_hash_axioms;

        self.entries.remove(&id);
    }

    /// Give `id` the stamp `at`, replacing any earlier one.
    pub fn insert(&mut self, id: u128, at: u64)
        requires
            old(self).wf(),
        ensures
            final(self).wf(),
            final(self)@ == old(self)@.insert(id, at),
    {
        broadcast use vstd::std_specs::hash::group_hash_axioms;

        self.entries.insert(id, at);
    }

    /// The ids stamped more than `max_age` ms before `now` (a stamp after
    /// `now` has age 0), each once.
    fn expired(&self, now: u64, max_age: u64) -> (removed: Vec<u128>)
        ensures
            removed@.no_duplicates(),
            forall|k: u128| removed@.contains(k) <==> self@.contains_key(k) && stamp_age(self@[k], now) > max_age,
    {
        broadcast use vstd::std_specs::hash::group_hash_axioms;

        let mut removed: Vec<u128> = Vec::new();
        for e in it: self.entries.iter()
            invariant
                it.seq() == spec_hash_map_iter(&self.entries).remaining(),
                it.seq().no_duplicates(),
                removed@.no_duplicates(),
                forall|k: u128|
                    removed@.contains(k) <==> exists|j: int|
                        0 <= j < it.index() && *it.seq()[j].0 == k && stamp_age(*it.seq()[j].1, now) > max_age,
        {
            let ghost i = it.index();
            let ghost before = removed@;
            let (k, v) = e;
            proof {
                assert(it.seq()[i] == e);
            }
            if !(*v >= now || now - *v <= max_age) {
                proof {
                    assert(!before.contains(*k)) by {
                        if before.contains(*k) {
                            let j = choose|j: int|
                                0 <= j < i && *it.seq()[j].0 == *k && stamp_age(*it.seq()[j].1, now) > max_age;
                            assert(self@[*it.seq()[j].0] == *it.seq()[j].1);
                            assert(self@[*it.seq()[i].0] == *it.seq()[i].1);
                            assert(it.seq()[j] == it.seq()[i]);
                        }
                    }
                }
                removed.push(*k);
            }
            proof {
                assert forall|kk: u128|
                    removed@.contains(kk) <==> exists|j: int|
                        0 <= j < i + 1 && *it.seq()[j].0 == kk && stamp_age(*it.seq()[j].1, now) > max_age by {
                    if removed@.contains(kk) {
                        let m = choose|m: int| 0 <= m < removed@.len() && removed@[m] == kk;
                        if m < before.len() {
                            assert(before[m] == kk);
                            assert(before.contains(kk));
                        } else {
                            assert(*it.seq()[i].0 == kk);
                        }
                    }
                    if exists|j: int|
                        0 <= j < i + 1 && *it.seq()[j].0 == kk && stamp_age(*it.seq()[j].1, now) > max_age {
                        let j = choose|j: int|
                            0 <= j < i + 1 && *it.seq()[j].0 == kk && stamp_age(*it.seq()[j].1, now) > max_age;
                        if j == i {
                            assert(removed@[removed@.len() - 1] == kk);
                        } else {
                            assert(before.contains(kk));
                            let m = choose|m: int| 0 <= m < before.len() && before[m] == kk;
                            assert(removed@[m] == kk);
                        }
                    }
                }
            }
        }
        removed
    }

    /// Drop every entry stamped more than `max_age` ms before `now` (a stamp
    /// after `now` has age 0), and return their ids.
    pub fn remove_older_than(&mut self, now: u64, max_age: u64) -> (removed: Vec<u128>)
        requires
            old(self).wf(),
        ensures
            final(self).wf(),
            final(self)@ == map_where(old(self)@, |e: (u128, u64)| stamp_age(e.1, now) <= max_age),
            forall|k: u128| removed@.contains(k) <==> old(self)@.contains_key(k) && stamp_age(old(self)@[k], now) > max_age,
    {
        broadcast use vstd::std_specs::hash::group_hash_axioms;

        let removed = self.expired(now, max_age);
        let ghost start = self@;
        let n = removed.len();
        let mut i: usize = 0;
        while i < n
            invariant
                n == removed@.len(),
                i <= n,
                start == old(self)@,
                self.wf(),
                self@ == Map::new(
                    |k: u128| start.contains_key(k) && !(exists|j: int| 0 <= j < i && removed@[j] == k),
                    |k: u128| start[k],
                ),
            decreases n - i,
        {
            let k = removed[i];
            let ghost prev = self@;
            self.entries.remove(&k);
            proof {
                assert(self@ =~= Map::new(
                    |kk: u128| start.contains_key(kk) && !(exists|j: int| 0 <= j < i + 1 && removed@[j] == kk),
                    |kk: u128| start[kk],
                )) by {
                    assert forall|kk: u128| #[trigger] self@.contains_key(kk) == (start.contains_key(kk) && !(exists|j: int| 0 <= j < i + 1 && removed@[j] == kk)) by {
                        if kk == k {
                            assert(removed@[i as int] == kk);
                        } else if exists|j: int| 0 <= j < i + 1 && removed@[j] == kk {
                            let j = choose|j: int| 0 <= j < i + 1 && removed@[j] == kk;
                            assert(j != i);
                        }
                    }
                }
            }
            i = i + 1;
        }
        proof {
            assert forall|kk: u128| (exists|j: int| 0 <= j < n && removed@[j] == kk) == removed@.contains(kk) by {
                if removed@.contains(kk) {
                    let j = choose|j: int| 0 <= j < removed@.len() && removed@[j] == kk;
                }
            }
            let p = |e: (u128, u64)| stamp_age(e.1, now) <= max_age;
            assert forall|kk: u128| #[trigger] self@.contains_key(kk) == (start.contains_key(kk) && p((kk, start[kk]))) by {
                assert((exists|j: int| 0 <= j < n && removed@[j] == kk) == removed@.contains(kk));
            }
            assert(self@ =~= map_where(start, p));
        }
        removed
    }
}

/// How long before `now` a stamp was taken (0 for a stamp after `now`).
pub open spec fn stamp_age(at: u64, now: u64) -> nat {
    if now >= at {
        (now - at) as nat
    } else {
        0
    }
}

} // verus!
