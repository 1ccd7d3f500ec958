//! Per-node telemetry stores: peer-count time series, best and finalized
//! blocks, and the event store.

use std::collections::VecDeque;
use vstd::prelude::*;
use crate::events::Event;

verus! {

/// Maps node ids to the slot each was given when first seen, remembering the
/// order in which they were seen.
pub struct NodeIndex {
    entries: Vec<NodeEntry>,
}

struct NodeEntry {
    name: String,
    slot: usize,
}

/// Position of `name` among `names`, if present.
pub open spec fn name_position(names: Seq<Seq<char>>, name: Seq<char>) -> Option<int> {
    if names.contains(name) {
        Some(names.index_of(name))
    } else {
        None
    }
}

impl NodeIndex {
    #[verifier::type_invariant]
    spec fn inv(self) -> bool {
        forall|i: int, j: int| 0 <= i < j < self.entries@.len() ==> self.entries@[i].name@ != self.entries@[j].name@
    }

    /// Node ids in order of first sight.
    pub closed spec fn names(&self) -> Seq<Seq<char>> {
        Seq::new(self.entries@.len(), |i: int| self.entries@[i].name@)
    }

    /// Slot given to each node id, in the same order.
    pub closed spec fn slots(&self) -> Seq<usize> {
        Seq::new(self.entries@.len(), |i: int| self.entries@[i].slot)
    }

    /// Slot of `name`, if it has one.
    pub open spec fn slot_of(&self, name: Seq<char>) -> Option<usize> {
        match name_position(self.names(), name) {
            Some(p) => Some(self.slots()[p]),
            None => None,
        }
    }

    /// Node ids are seen once each and each has a slot.
    proof fn lemma_inv(&self)
        requires
            self.inv(),
        ensures
            self.names().len() == self.slots().len(),
            self.names().no_duplicates(),
    {
        assert forall|i: int, j: int| 0 <= i < self.names().len() && 0 <= j < self.names().len() && i != j
            implies self.names()[i] != self.names()[j] by {
            if i < j {
                assert(self.entries@[i].name@ != self.entries@[j].name@);
            } else {
                assert(self.entries@[j].name@ != self.entries@[i].name@);
            }
        }
    }

    /// No node ids.
    pub fn new() -> (r: Self)
        ensures
            r.names() == Seq::<Seq<char>>::empty(),
            r.slots() == Seq::<usize>::empty(),
    {
        let r = NodeIndex { entries: Vec::new() };
        assert(r.names() =~= Seq::<Seq<char>>::empty());
        assert(r.slots() =~= Seq::<usize>::empty());
        r
    }

    /// Number of node ids seen.
    pub fn len(&self) -> (r: usize)
        ensures
            r == self.names().len(),
    {
        self.entries.len()
    }

    /// Position of `name` in order of first sight, if seen.
    pub fn position(&self, name: &str) -> (r: Option<usize>)
        ensures
            match r {
                Some(p) => name_position(self.names(), name@) == Some(p as int),
                None => name_position(self.names(), name@) is None,
            },
    {
        proof {
            use_type_invariant(self);
            self.lemma_inv();
        }
        let key = name.to_owned();
        let mut i: usize = 0;
        while i < self.entries.len()
            invariant
                i <= self.entries@.len(),
                key@ == name@,
                self.names().len() == self.entries@.len(),
                self.names().no_duplicates(),
                forall|j: int| 0 <= j < i ==> self.names()[j] != name@,
            decreases self.entries@.len() - i,
        {
            if self.entries[i].name == key {
                proof {
                    assert(self.names()[i as int] == name@);
                    assert(self.names().contains(name@));
                    let k = self.names().index_of(name@);
                    if k != i {
                        assert(self.names()[k] == self.names()[i as int]);
                    }
                }
                return Some(i);
            }
            i = i + 1;
        }
        None
    }

    /// Slot of `name`, if seen.
    pub fn get(&self, name: &str) -> (r: Option<usize>)
        ensures
            r == self.slot_of(name@),
    {
        proof {
            use_type_invariant(self);
        }
        match self.position(name) {
            Some(p) => {
                proof {
                    assert(self.names().contains(name@));
                    let q = self.names().index_of(name@);
                    assert(0 <= q < self.names().len());
                    assert(q == p as int);
                    assert(self.slots()[p as int] == self.entries@[p as int].slot);
                }
                Some(self.entries[p].slot)
            }
            None => None,
        }
    }

    /// Id of the node seen `i`-th.
    pub fn name_at(&self, i: usize) -> (r: &str)
        requires
            i < self.names().len(),
        ensures
            r@ == self.names()[i as int],
    {
        self.entries[i].name.as_str()
    }

    /// Records a new node id with the given slot.
    pub fn insert_new(&mut self, name: &str, slot: usize)
        requires
            !old(self).names().contains(name@),
        ensures
            final(self).names() == old(self).names().push(name@),
            final(self).slots() == old(self).slots().push(slot),
    {
        proof {
            use_type_invariant(&*self);
        }
        let ghost before = self.names();
        let ghost before_slots = self.slots();
        let key = name.to_owned();
        let ghost entries_before = self.entries@;
        proof {
            assert forall|i: int| 0 <= i < entries_before.len() implies entries_before[i].name@ != name@ by {
                assert(before[i] == entries_before[i].name@);
            }
        }
        let mut entries: Vec<NodeEntry> = Vec::new();
        std::mem::swap(&mut entries, &mut self.entries);
        entries.push(NodeEntry { name: key, slot });
        std::mem::swap(&mut entries, &mut self.entries);
        assert(self.names() =~= before.push(name@));
        assert(self.slots() =~= before_slots.push(slot));
    }
}

} // verus!

verus! {

/// Slot handed to the node seen `position`-th when there are `n` slots: its
/// own position, or the last slot once every slot has been handed out.
pub open spec fn capped_slot(position: nat, n: nat) -> nat {
    if position < n { position } else { (n - 1) as nat }
}

/// Slot of `node_id`, giving it the next slot (capped at `n - 1`) when new.
/// Also says whether the node was new.
fn get_or_create_slot(index: &mut NodeIndex, node_id: &str, n: usize) -> (r: (usize, bool))
    requires
        n > 0,
    ensures
        match old(index).slot_of(node_id@) {
            Some(s) => r == (s, false) && *final(index) == *old(index),
            None => {
                &&& r.1
                &&& r.0 == capped_slot(old(index).names().len(), n as nat)
                &&& final(index).names() == old(index).names().push(node_id@)
                &&& final(index).slots() == old(index).slots().push(r.0)
            },
        },
        final(index).slot_of(node_id@) == Some(r.0),
        forall|other: Seq<char>| other != node_id@ ==> #[trigger] final(index).slot_of(other) == old(index).slot_of(other),
{
    proof {
        use_type_invariant(&*index);
        index.lemma_inv();
    }
    match index.get(node_id) {
        Some(s) => (s, false),
        None => {
            let count = index.len();
            let slot = if count < n { count } else { n - 1 };
            proof {
                assert(!old(index).names().contains(node_id@));
            }
            index.insert_new(node_id, slot);
            proof {
                use_type_invariant(&*index);
                index.lemma_inv();
                let names = index.names();
                let old_names = old(index).names();
                assert(names[old_names.len() as int] == node_id@);
                assert(names.contains(node_id@));
                let kn = names.index_of(node_id@);
                assert(names[kn] == node_id@);
                assert(kn == old_names.len() as int);
                assert forall|other: Seq<char>| other != node_id@ implies #[trigger] index.slot_of(other) == old(index).slot_of(other) by {
                    if old_names.contains(other) {
                        let k = old_names.index_of(other);
                        assert(names[k] == other);
                        assert(names.contains(other));
                        let k2 = names.index_of(other);
                        assert(names[k2] == other);
                        assert(k2 != old_names.len() as int);
                        assert(k2 == k);
                    } else {
                        if names.contains(other) {
                            let k2 = names.index_of(other);
                            assert(names[k2] == other);
                            assert(old_names[k2] == other);
                        }
                    }
                }
            }
            (slot, true)
        }
    }
}

/// A series after appending a point: the oldest point goes first when the
/// series already holds `max` points.
pub open spec fn appended<V>(s: Seq<V>, v: V, max: nat) -> Seq<V> {
    if s.len() >= max && s.len() > 0 { s.drop_first().push(v) } else { s.push(v) }
}

/// Peer count (or any per-node value) over time, one bounded series per
/// node slot.
pub struct TimeSeriesData<V> {
    /// `series[slot][time]` = value, oldest first.
    pub series: Vec<Vec<V>>,
    /// Points kept per series.
    pub max_points: usize,
    node_index: NodeIndex,
}

impl<V: Copy> TimeSeriesData<V> {
    /// Node ids seen, in order of first sight.
    pub closed spec fn nodes(&self) -> Seq<Seq<char>> {
        self.node_index.names()
    }

    /// Series slot of each node seen, in the same order.
    pub closed spec fn node_slots(&self) -> Seq<usize> {
        self.node_index.slots()
    }

    /// Series slot of a node id, if seen.
    pub closed spec fn slot_of(&self, node_id: Seq<char>) -> Option<usize> {
        self.node_index.slot_of(node_id)
    }

    /// Points of each series, oldest first.
    pub closed spec fn points(&self) -> Seq<Seq<V>> {
        Seq::new(self.series@.len(), |i: int| self.series@[i]@)
    }

    /// Points kept per series.
    pub closed spec fn max(&self) -> nat {
        self.max_points as nat
    }

    /// Every node's slot names an existing series.
    pub closed spec fn wf(&self) -> bool {
        forall|i: int| 0 <= i < self.node_slots().len() ==> #[trigger] self.node_slots()[i] < self.series@.len()
    }

    /// `num_series` empty series keeping `max_points` points each.
    pub fn new(num_series: usize, max_points: usize) -> (r: Self)
        ensures
            r.wf(),
            r.points().len() == num_series,
            forall|i: int| 0 <= i < num_series ==> (#[trigger] r.points()[i]).len() == 0,
            r.max() == max_points,
            r.nodes() == Seq::<Seq<char>>::empty(),
    {
        let mut series: Vec<Vec<V>> = Vec::new();
        let mut i: usize = 0;
        while i < num_series
            invariant
                i <= num_series,
                series@.len() == i,
                forall|j: int| 0 <= j < i ==> (#[trigger] series@[j])@.len() == 0,
            decreases num_series - i,
        {
            series.push(Vec::new());
            i = i + 1;
        }
        TimeSeriesData { series, max_points, node_index: NodeIndex::new() }
    }

    /// Appends a point to a node's series, registering the node when new (new
    /// nodes take the next slot; once all are taken they share the last one).
    /// A full series drops its oldest point.
    pub fn push(&mut self, node_id: &str, value: V)
        requires
            old(self).wf(),
            old(self).points().len() > 0,
            old(self).max() > 0,
        ensures
            final(self).wf(),
            final(self).max() == old(self).max(),
            final(self).points().len() == old(self).points().len(),
            final(self).nodes() == if old(self).nodes().contains(node_id@) {
                old(self).nodes()
            } else {
                old(self).nodes().push(node_id@)
            },
            final(self).slot_of(node_id@) == Some(
                if old(self).nodes().contains(node_id@) {
                    old(self).slot_of(node_id@).unwrap()
                } else {
                    capped_slot(old(self).nodes().len(), old(self).points().len()) as usize
                },
            ),
            forall|s: int| 0 <= s < old(self).points().len() ==> #[trigger] final(self).points()[s] == if Some(
                s as usize,
            ) == final(self).slot_of(node_id@) {
                appended(old(self).points()[s], value, old(self).max() as nat)
            } else {
                old(self).points()[s]
            },
            forall|other: Seq<char>| other != node_id@ ==> #[trigger] final(self).slot_of(other) == old(self).slot_of(other),
    {
        let n = self.series.len();
        let (idx, _is_new) = get_or_create_slot(&mut self.node_index, node_id, n);
        proof {
            match old(self).node_index.slot_of(node_id@) {
                Some(sl) => {
                    let p = name_position(old(self).node_index.names(), node_id@).unwrap();
                    assert(old(self).node_slots()[p] == sl);
                }
                None => {}
            }
            assert(idx < n);
            assert forall|i: int| 0 <= i < self.node_slots().len() implies #[trigger] self.node_slots()[i] < self.series@.len() by {
                if i < old(self).node_slots().len() {
                    assert(self.node_slots()[i] == old(self).node_slots()[i]);
                }
            }
        }
        let ghost before = self.series@;
        if self.series[idx].len() >= self.max_points {
            self.series[idx].remove(0);
        }
        self.series[idx].push(value);
        proof {
            assert(self.series@[idx as int]@ =~= appended(before[idx as int]@, value, self.max_points as nat));
            assert forall|s: int| 0 <= s < before.len() implies #[trigger] self.points()[s] == if Some(s as usize) == self.slot_of(node_id@) {
                appended(before[s]@, value, self.max_points as nat)
            } else {
                before[s]@
            } by {
                if s != idx as int {
                    assert(self.series@[s] == before[s]);
                }
            }
        }
    }

    /// Length of the longest series (0 when there are none).
    pub fn max_series_len(&self) -> (r: usize)
        ensures
            forall|s: int| 0 <= s < self.points().len() ==> (#[trigger] self.points()[s]).len() <= r,
            r == 0 || exists|s: int| 0 <= s < self.points().len() && (#[trigger] self.points()[s]).len() == r,
    {
        let ghost pts = self.points();
        let mut best: usize = 0;
        let mut i: usize = 0;
        while i < self.series.len()
            invariant
                i <= self.series@.len(),
                pts == self.points(),
                forall|s: int| 0 <= s < i ==> (#[trigger] pts[s]).len() <= best,
                best == 0 || exists|s: int| 0 <= s < i && (#[trigger] pts[s]).len() == best,
            decreases self.series@.len() - i,
        {
            assert(pts[i as int] == self.series@[i as int]@);
            if self.series[i].len() > best {
                best = self.series[i].len();
            }
            i = i + 1;
        }
        best
    }

    /// Number of points in the first non-empty series (0 when every series is
    /// empty).
    pub fn point_count(&self) -> (r: usize)
        ensures
            (r == 0) <==> (forall|s: int| 0 <= s < self.points().len() ==> (#[trigger] self.points()[s]).len() == 0),
            r > 0 ==> exists|k: int| 0 <= k < self.points().len() && (#[trigger] self.points()[k]).len() == r
                && forall|j: int| 0 <= j < k ==> (#[trigger] self.points()[j]).len() == 0,
    {
        let ghost pts = self.points();
        let mut i: usize = 0;
        while i < self.series.len()
            invariant
                i <= self.series@.len(),
                pts == self.points(),
                forall|j: int| 0 <= j < i ==> (#[trigger] pts[j]).len() == 0,
            decreases self.series@.len() - i,
        {
            assert(pts[i as int] == self.series@[i as int]@);
            if self.series[i].len() > 0 {
                return self.series[i].len();
            }
            i = i + 1;
        }
        0
    }

    /// Latest point of a node's series, if the node was seen and its series is
    /// not empty.
    pub open spec fn latest_of(&self, node_id: Seq<char>) -> Option<V> {
        match self.slot_of(node_id) {
            Some(s) => if s < self.points().len() && self.points()[s as int].len() > 0 {
                Some(self.points()[s as int].last())
            } else {
                None
            },
            None => None,
        }
    }

    /// Latest point of a node's series, if the node was seen and its series is
    /// not empty.
    pub fn latest_value(&self, node_id: &str) -> (r: Option<V>)
        ensures
            r == self.latest_of(node_id@),
    {
        match self.node_index.get(node_id) {
            Some(s) => {
                if s < self.series.len() && self.series[s].len() > 0 {
                    let n = self.series[s].len();
                    Some(self.series[s][n - 1])
                } else {
                    None
                }
            }
            None => None,
        }
    }

    /// Number of node ids seen.
    pub fn validator_count(&self) -> (r: usize)
        ensures
            r == self.nodes().len(),
    {
        self.node_index.len()
    }
}

} // verus!

verus! {

/// Largest non-zero slot in `s`, if any.
pub open spec fn highest_nonzero(s: Seq<u64>) -> Option<u64>
    decreases s.len(),
{
    if s.len() == 0 {
        None
    } else {
        let rest = highest_nonzero(s.drop_last());
        let x = s.last();
        if x == 0 {
            rest
        } else {
            match rest {
                Some(m) => if m >= x { Some(m) } else { Some(x) },
                None => Some(x),
            }
        }
    }
}

/// `highest_nonzero` is the maximum of the non-zero entries: `None` exactly
/// when every entry is zero.
pub proof fn lemma_highest_nonzero(s: Seq<u64>)
    ensures
        match highest_nonzero(s) {
            Some(m) => m > 0 && s.contains(m) && forall|i: int| 0 <= i < s.len() ==> #[trigger] s[i] <= m,
            None => forall|i: int| 0 <= i < s.len() ==> #[trigger] s[i] == 0,
        },
    decreases s.len(),
{
    if s.len() > 0 {
        let p = s.drop_last();
        lemma_highest_nonzero(p);
        let x = s.last();
        let n = s.len() - 1;
        assert(s[n] == x);
        assert forall|i: int| 0 <= i < n implies s[i] == #[trigger] p[i] by {}
        match highest_nonzero(p) {
            Some(m) => {
                let k = choose|k: int| 0 <= k < p.len() && p[k] == m;
                assert(s[k] == m);
                if x != 0 && m < x {
                    assert(s.contains(x));
                    assert forall|i: int| 0 <= i < s.len() implies #[trigger] s[i] <= x by {
                        if i < n {
                            assert(p[i] <= m);
                        }
                    }
                } else {
                    assert(s.contains(m));
                    assert forall|i: int| 0 <= i < s.len() implies #[trigger] s[i] <= m by {
                        if i < n {
                            assert(p[i] <= m);
                        }
                    }
                }
            }
            None => {
                if x != 0 {
                    assert(s.contains(x));
                    assert forall|i: int| 0 <= i < s.len() implies #[trigger] s[i] <= x by {
                        if i < n {
                            assert(p[i] == 0);
                        }
                    }
                } else {
                    assert forall|i: int| 0 <= i < s.len() implies #[trigger] s[i] == 0 by {
                        if i < n {
                            assert(p[i] == 0);
                        }
                    }
                }
            }
        }
    }
}

/// Finds the largest non-zero entry.
fn max_nonzero(v: &Vec<u64>) -> (r: Option<u64>)
    ensures
        r == highest_nonzero(v@),
{
    let mut best: Option<u64> = None;
    let mut i: usize = 0;
    while i < v.len()
        invariant
            i <= v@.len(),
            best == highest_nonzero(v@.take(i as int)),
        decreases v@.len() - i,
    {
        let x = v[i];
        proof {
            assert(v@.take(i + 1).drop_last() =~= v@.take(i as int));
        }
        if x != 0 {
            best = match best {
                Some(m) => if m >= x { Some(m) } else { Some(x) },
                None => Some(x),
            };
        }
        i = i + 1;
    }
    assert(v@.take(v@.len() as int) =~= v@);
    best
}

/// Best and finalized block slot per validator slot.
pub struct BestBlockData {
    /// `best_blocks[slot]` = best block slot reported by that validator.
    pub best_blocks: Vec<u64>,
    /// `finalized_blocks[slot]` = finalized block slot reported by that validator.
    pub finalized_blocks: Vec<u64>,
    node_index: NodeIndex,
}

impl BestBlockData {
    /// Node ids seen, in order of first sight.
    pub closed spec fn nodes(&self) -> Seq<Seq<char>> {
        self.node_index.names()
    }

    /// Validator slot of a node id, if seen.
    pub closed spec fn slot_of(&self, node_id: Seq<char>) -> Option<usize> {
        self.node_index.slot_of(node_id)
    }

    /// Best block per validator slot.
    pub closed spec fn best(&self) -> Seq<u64> {
        self.best_blocks@
    }

    /// Finalized block per validator slot.
    pub closed spec fn finalized(&self) -> Seq<u64> {
        self.finalized_blocks@
    }

    /// Both tables have one entry per validator slot and every node's slot is
    /// in range.
    pub closed spec fn wf(&self) -> bool {
        &&& self.finalized_blocks@.len() == self.best_blocks@.len()
        &&& forall|i: int| 0 <= i < self.node_index.slots().len() ==> #[trigger] self.node_index.slots()[i]
            < self.best_blocks@.len()
    }

    /// Tables for `num_validators` validators, every slot at 0.
    pub fn new(num_validators: usize) -> (r: Self)
        ensures
            r.wf(),
            r.best() == Seq::new(num_validators as nat, |i: int| 0u64),
            r.finalized() == Seq::new(num_validators as nat, |i: int| 0u64),
            r.nodes() == Seq::<Seq<char>>::empty(),
    {
        let mut best: Vec<u64> = Vec::new();
        let mut fin: Vec<u64> = Vec::new();
        let mut i: usize = 0;
        while i < num_validators
            invariant
                i <= num_validators,
                best@ == Seq::new(i as nat, |k: int| 0u64),
                fin@ == Seq::new(i as nat, |k: int| 0u64),
            decreases num_validators - i,
        {
            best.push(0);
            fin.push(0);
            proof {
                assert(best@ =~= Seq::new((i + 1) as nat, |k: int| 0u64));
                assert(fin@ =~= Seq::new((i + 1) as nat, |k: int| 0u64));
            }
            i = i + 1;
        }
        BestBlockData { best_blocks: best, finalized_blocks: fin, node_index: NodeIndex::new() }
    }

    fn slot_for(&mut self, node_id: &str) -> (r: usize)
        requires
            old(self).wf(),
            old(self).best().len() > 0,
        ensures
            final(self).wf(),
            final(self).best() == old(self).best(),
            final(self).finalized() == old(self).finalized(),
            r < old(self).best().len(),
            final(self).nodes() == if old(self).nodes().contains(node_id@) {
                old(self).nodes()
            } else {
                old(self).nodes().push(node_id@)
            },
            final(self).slot_of(node_id@) == Some(r),
            r == if old(self).nodes().contains(node_id@) {
                old(self).slot_of(node_id@).unwrap()
            } else {
                capped_slot(old(self).nodes().len(), old(self).best().len()) as usize
            },
            forall|other: Seq<char>| other != node_id@ ==> #[trigger] final(self).slot_of(other) == old(self).slot_of(other),
    {
        let n = self.best_blocks.len();
        let (idx, _is_new) = get_or_create_slot(&mut self.node_index, node_id, n);
        proof {
            match old(self).node_index.slot_of(node_id@) {
                Some(sl) => {
                    let p = name_position(old(self).node_index.names(), node_id@).unwrap();
                    assert(old(self).node_index.slots()[p] == sl);
                }
                None => {}
            }
            assert forall|i: int| 0 <= i < self.node_index.slots().len() implies #[trigger] self.node_index.slots()[i]
                < self.best_blocks@.len() by {
                if i < old(self).node_index.slots().len() {
                    assert(self.node_index.slots()[i] == old(self).node_index.slots()[i]);
                }
            }
        }
        idx
    }

    /// Records a validator's best block, registering the validator when new.
    pub fn set_best(&mut self, node_id: &str, slot: u64)
        requires
            old(self).wf(),
            old(self).best().len() > 0,
        ensures
            final(self).wf(),
            final(self).nodes() == if old(self).nodes().contains(node_id@) {
                old(self).nodes()
            } else {
                old(self).nodes().push(node_id@)
            },
            final(self).slot_of(node_id@) is Some,
            final(self).slot_of(node_id@).unwrap() < old(self).best().len(),
            final(self).best().len() == old(self).best().len(),
            final(self).best() == old(self).best().update(final(self).slot_of(node_id@).unwrap() as int, slot),
            final(self).finalized() == old(self).finalized(),
            final(self).slot_of(node_id@).unwrap() == if old(self).nodes().contains(node_id@) {
                old(self).slot_of(node_id@).unwrap()
            } else {
                capped_slot(old(self).nodes().len(), old(self).best().len()) as usize
            },
            forall|other: Seq<char>| other != node_id@ ==> #[trigger] final(self).slot_of(other) == old(self).slot_of(other),
    {
        let idx = self.slot_for(node_id);
        let ghost mid = *self;
        self.best_blocks.set(idx, slot);
        proof {
            assert forall|other: Seq<char>| other != node_id@ implies #[trigger] self.slot_of(other) == old(self).slot_of(other) by {
                assert(self.slot_of(other) == mid.slot_of(other));
            }
        }
    }

    /// Records a validator's finalized block, registering the validator when
    /// new.
    pub fn set_finalized(&mut self, node_id: &str, slot: u64)
        requires
            old(self).wf(),
            old(self).best().len() > 0,
        ensures
            final(self).wf(),
            final(self).nodes() == if old(self).nodes().contains(node_id@) {
                old(self).nodes()
            } else {
                old(self).nodes().push(node_id@)
            },
            final(self).slot_of(node_id@) is Some,
            final(self).slot_of(node_id@).unwrap() < old(self).best().len(),
            final(self).finalized().len() == old(self).finalized().len(),
            final(self).finalized() == old(self).finalized().update(final(self).slot_of(node_id@).unwrap() as int, slot),
            final(self).best() == old(self).best(),
            final(self).slot_of(node_id@).unwrap() == if old(self).nodes().contains(node_id@) {
                old(self).slot_of(node_id@).unwrap()
            } else {
                capped_slot(old(self).nodes().len(), old(self).best().len()) as usize
            },
            forall|other: Seq<char>| other != node_id@ ==> #[trigger] final(self).slot_of(other) == old(self).slot_of(other),
    {
        let idx = self.slot_for(node_id);
        let ghost mid = *self;
        self.finalized_blocks.set(idx, slot);
        proof {
            assert forall|other: Seq<char>| other != node_id@ implies #[trigger] self.slot_of(other) == old(self).slot_of(other) by {
                assert(self.slot_of(other) == mid.slot_of(other));
            }
        }
    }

    /// Number of validators seen.
    pub fn validator_count(&self) -> (r: usize)
        ensures
            r == self.nodes().len(),
    {
        self.node_index.len()
    }

    /// Highest best-block slot over all validators, ignoring zero entries.
    pub fn highest_slot(&self) -> (r: Option<u64>)
        ensures
            r == highest_nonzero(self.best()),
    {
        max_nonzero(&self.best_blocks)
    }

    /// Highest finalized slot over all validators, ignoring zero entries.
    pub fn highest_finalized(&self) -> (r: Option<u64>)
        ensures
            r == highest_nonzero(self.finalized()),
    {
        max_nonzero(&self.finalized_blocks)
    }
}

/// After a validator reports a non-zero best block, the highest best slot is
/// at least that block.
pub proof fn law_highest_slot_covers_report(before: Seq<u64>, i: int, slot: u64)
    requires
        0 <= i < before.len(),
        slot > 0,
    ensures
        highest_nonzero(before.update(i, slot)) is Some,
        highest_nonzero(before.update(i, slot)).unwrap() >= slot,
{
    let after = before.update(i, slot);
    lemma_highest_nonzero(after);
    assert(after[i] == slot);
}

} // verus!

verus! {

broadcast use vstd::std_specs::vecdeque::group_vec_dequeue_axioms;

/// A stored event with the app time at which it arrived, in milliseconds.
pub struct StoredEvent {
    pub timestamp: u64,
    pub event: Event,
}

impl StoredEvent {
    /// Code of the stored event's kind.
    pub fn event_type(&self) -> (r: u8)
        ensures
            r == self.event.kind().spec_code(),
    {
        self.event.event_type().code()
    }
}

/// The stored events of one kind at one node, oldest first.
pub struct TypeBucket {
    pub event_type: u8,
    pub events: VecDeque<StoredEvent>,
}

/// A node's buckets as (kind code, events) pairs.
pub type BucketsView = Seq<(u8, Seq<StoredEvent>)>;

/// Index of the bucket for kind code `t`, if any (the last one, should there
/// be several).
pub open spec fn find_bucket(bs: BucketsView, t: u8) -> Option<int>
    decreases bs.len(),
{
    if bs.len() == 0 {
        None
    } else if bs.last().0 == t {
        Some(bs.len() - 1)
    } else {
        find_bucket(bs.drop_last(), t)
    }
}

/// Buckets after storing `e`: appended to its kind's bucket (dropping that
/// bucket's oldest event when it already holds `max`), or in a new bucket at
/// the end when its kind has none yet.
pub open spec fn buckets_after_push(bs: BucketsView, e: StoredEvent, max: nat) -> BucketsView {
    let t = e.event.kind().spec_code();
    match find_bucket(bs, t) {
        Some(k) => bs.update(k, (t, appended(bs[k].1, e, max))),
        None => bs.push((t, seq![e])),
    }
}

/// `find_bucket` finds a bucket of that code, and only when one exists.
pub proof fn lemma_find_bucket(bs: BucketsView, t: u8)
    ensures
        match find_bucket(bs, t) {
            Some(k) => 0 <= k < bs.len() && bs[k].0 == t,
            None => forall|i: int| 0 <= i < bs.len() ==> #[trigger] bs[i].0 != t,
        },
    decreases bs.len(),
{
    if bs.len() > 0 {
        let p = bs.drop_last();
        lemma_find_bucket(p, t);
        assert forall|i: int| 0 <= i < bs.len() - 1 implies #[trigger] p[i] == bs[i] by {}
        assert(bs[bs.len() - 1] == bs.last());
        if bs.last().0 != t {
            match find_bucket(p, t) {
                Some(k) => {
                    assert(p[k] == bs[k]);
                }
                None => {
                    assert forall|i: int| 0 <= i < bs.len() implies #[trigger] bs[i].0 != t by {
                        if i < bs.len() - 1 {
                            assert(p[i] == bs[i]);
                        }
                    }
                }
            }
        }
    }
}

/// Bucket codes are distinct, each bucket holds only events of its code, and
/// no bucket holds more than the holding limit for `max`.
pub open spec fn buckets_wf(bs: BucketsView, max: nat) -> bool {
    &&& forall|i: int, j: int| 0 <= i < j < bs.len() ==> bs[i].0 != bs[j].0
    &&& forall|i: int, m: int| 0 <= i < bs.len() && 0 <= m < bs[i].1.len() ==> (#[trigger] bs[i].1[m]).event.kind().spec_code() == bs[i].0
    &&& forall|i: int| 0 <= i < bs.len() ==> (#[trigger] bs[i].1).len() <= if max == 0 { 1 } else { max }
}

/// Events of one node, grouped by kind, each group a bounded ring buffer.
pub struct NodeEvents {
    /// One bucket per kind seen at this node, in order of first sight.
    pub by_type: Vec<TypeBucket>,
    /// The node's position for visualisations.
    pub index: u16,
    max_per_type: usize,
}

impl NodeEvents {
    /// The buckets as (kind code, events) pairs.
    pub closed spec fn buckets(&self) -> BucketsView {
        Seq::new(self.by_type@.len(), |i: int| (self.by_type@[i].event_type, self.by_type@[i].events@))
    }

    /// Events kept per kind.
    pub closed spec fn max(&self) -> nat {
        self.max_per_type as nat
    }

    /// The node's position for visualisations.
    pub closed spec fn position(&self) -> u16 {
        self.index
    }

    pub closed spec fn wf(&self) -> bool {
        buckets_wf(self.buckets(), self.max_per_type as nat)
    }

    fn new(index: u16, max_per_type: usize) -> (r: Self)
        ensures
            r.wf(),
            r.buckets() == Seq::<(u8, Seq<StoredEvent>)>::empty(),
            r.max() == max_per_type,
            r.position() == index,
    {
        let r = NodeEvents { by_type: Vec::new(), index, max_per_type };
        assert(r.buckets() =~= Seq::<(u8, Seq<StoredEvent>)>::empty());
        r
    }

    fn push(&mut self, event: Event, timestamp: u64)
        requires
            old(self).wf(),
        ensures
            final(self).wf(),
            final(self).buckets() == buckets_after_push(old(self).buckets(), StoredEvent { timestamp, event }, old(self).max()),
            final(self).max() == old(self).max(),
            final(self).position() == old(self).position(),
    {
        let ghost bs = self.buckets();
        let ghost e = StoredEvent { timestamp, event };
        let t = event.event_type().code();
        let stored = StoredEvent { timestamp, event };
        proof {
            lemma_find_bucket(bs, t);
        }
        let mut i: usize = 0;
        let mut pos: Option<usize> = None;
        while i < self.by_type.len()
            invariant
                i <= self.by_type@.len(),
                bs == self.buckets(),
                self.wf(),
                match pos {
                    Some(p) => p < bs.len() && bs[p as int].0 == t,
                    None => forall|j: int| 0 <= j < i ==> #[trigger] bs[j].0 != t,
                },
            decreases self.by_type@.len() - i,
        {
            if pos.is_none() && self.by_type[i].event_type == t {
                pos = Some(i);
            }
            i = i + 1;
        }
        if let Some(k) = pos {
            proof {
                assert(bs[k as int].0 == t);
                match find_bucket(bs, t) {
                    Some(k2) => {
                        if k2 != k as int {
                            assert(bs[k2].0 == bs[k as int].0);
                        }
                    }
                    None => {}
                }
            }
            if self.by_type[k].events.len() >= self.max_per_type {
                self.by_type[k].events.pop_front();
            }
            self.by_type[k].events.push_back(stored);
            proof {
                assert(self.by_type@[k as int].events@ =~= appended(bs[k as int].1, e, self.max_per_type as nat));
                assert(self.buckets() =~= buckets_after_push(bs, e, self.max_per_type as nat));
                let nb = self.buckets();
                assert forall|i: int, m: int| 0 <= i < nb.len() && 0 <= m < nb[i].1.len() implies (#[trigger] nb[i].1[m]).event.kind().spec_code() == nb[i].0 by {
                    if i == k as int {
                        let old_s = bs[i].1;
                        if old_s.len() >= self.max_per_type && old_s.len() > 0 {
                            if m < old_s.len() - 1 {
                                assert(nb[i].1[m] == old_s[m + 1]);
                            }
                        } else {
                            if m < old_s.len() {
                                assert(nb[i].1[m] == old_s[m]);
                            }
                        }
                    } else {
                        assert(nb[i] == bs[i]);
                    }
                }
                assert forall|i: int| 0 <= i < nb.len() implies (#[trigger] nb[i].1).len() <= if self.max_per_type == 0 { 1 } else { self.max_per_type as int } by {
                    if i != k as int {
                        assert(nb[i] == bs[i]);
                    }
                }
            }
        } else {
            let mut dq: VecDeque<StoredEvent> = VecDeque::new();
            dq.push_back(stored);
            self.by_type.push(TypeBucket { event_type: t, events: dq });
            proof {
                assert(self.buckets() =~= buckets_after_push(bs, e, self.max_per_type as nat));
                let nb = self.buckets();
                assert forall|i: int, j: int| 0 <= i < j < nb.len() implies nb[i].0 != nb[j].0 by {
                    if j == bs.len() {
                        assert(nb[i] == bs[i]);
                    } else {
                        assert(nb[i] == bs[i]);
                        assert(nb[j] == bs[j]);
                    }
                }
                assert forall|i: int, m: int| 0 <= i < nb.len() && 0 <= m < nb[i].1.len() implies (#[trigger] nb[i].1[m]).event.kind().spec_code() == nb[i].0 by {
                    if i < bs.len() {
                        assert(nb[i] == bs[i]);
                    }
                }
                assert forall|i: int| 0 <= i < nb.len() implies (#[trigger] nb[i].1).len() <= if self.max_per_type == 0 { 1 } else { self.max_per_type as int } by {
                    if i < bs.len() {
                        assert(nb[i] == bs[i]);
                    }
                }
            }
        }
    }

    /// Number of events stored at this node over all kinds (saturating at
    /// `usize::MAX`).
    pub fn total_events(&self) -> (r: usize)
        ensures
            r == if total_stored(self.buckets()) > usize::MAX { usize::MAX as nat } else { total_stored(self.buckets()) },
    {
        let mut n: usize = 0;
        let mut k: usize = 0;
        while k < self.by_type.len()
            invariant
                k <= self.by_type@.len(),
                n == if total_stored(self.buckets().take(k as int)) > usize::MAX { usize::MAX as nat } else { total_stored(self.buckets().take(k as int)) },
            decreases self.by_type@.len() - k,
        {
            let len = self.by_type[k].events.len();
            proof {
                assert(self.buckets().take(k + 1).drop_last() =~= self.buckets().take(k as int));
            }
            n = if n <= usize::MAX - len { n + len } else { usize::MAX };
            k = k + 1;
        }
        assert(self.buckets().take(self.by_type@.len() as int) =~= self.buckets());
        n
    }
}

/// Number of events in all buckets.
pub open spec fn total_stored(bs: BucketsView) -> nat
    decreases bs.len(),
{
    if bs.len() == 0 {
        0
    } else {
        total_stored(bs.drop_last()) + bs.last().1.len()
    }
}

} // verus!

verus! {

/// Visualisation position of the node seen `position`-th: positions count up
/// and stop at `u16::MAX`.
/// A peer count, or 0 when there is none.
pub open spec fn count_or_zero(c: Option<u32>) -> u32 {
    match c {
        Some(v) => v,
        None => 0,
    }
}

/// What the last ring position shows when it is shared: `v` is the latest
/// count of the last node from that position on that has one, or 0 when none
/// of them has.
pub open spec fn shared_last_count(series: TimeSeriesData<u32>, ids: Seq<Seq<char>>, v: u32) -> bool {
    ||| (v == 0 && forall|j: int| u16::MAX <= j < ids.len() ==> series.latest_of(#[trigger] ids[j]) is None)
    ||| exists|j: int| u16::MAX <= j < ids.len() && series.latest_of(#[trigger] ids[j]) == Some(v)
        && forall|m: int| j < m < ids.len() ==> series.latest_of(#[trigger] ids[m]) is None
}

pub open spec fn node_position(position: nat) -> u16 {
    if position < u16::MAX { position as u16 } else { u16::MAX }
}

/// Node ids after storing an event for `node_id`.
pub open spec fn ids_after_push(ids: Seq<Seq<char>>, node_id: Seq<char>) -> Seq<Seq<char>> {
    if ids.contains(node_id) { ids } else { ids.push(node_id) }
}

/// Per-node positions and buckets after storing `e` for `node_id`: the event
/// joins the node's buckets, and a new node comes last at the next position.
pub open spec fn views_after_push(
    ids: Seq<Seq<char>>,
    views: Seq<(u16, BucketsView)>,
    node_id: Seq<char>,
    e: StoredEvent,
    max: nat,
) -> Seq<(u16, BucketsView)> {
    match name_position(ids, node_id) {
        Some(p) => views.update(p, (views[p].0, buckets_after_push(views[p].1, e, max))),
        None => views.push((node_position(views.len()), buckets_after_push(Seq::empty(), e, max))),
    }
}

/// Per-node event storage: every node's events grouped by kind, each group a
/// bounded ring buffer.
pub struct EventStore {
    ids: NodeIndex,
    nodes: Vec<NodeEvents>,
    max_events_per_node: usize,
    /// How long events are kept by `prune`, in milliseconds.
    pub retention: u64,
    next_node_index: u16,
}

impl EventStore {
    /// Node ids in order of first sight.
    pub closed spec fn node_ids(&self) -> Seq<Seq<char>> {
        self.ids.names()
    }

    /// Each node's visualisation position and buckets, in order of first sight.
    pub closed spec fn node_views(&self) -> Seq<(u16, BucketsView)> {
        Seq::new(self.nodes@.len(), |i: int| (self.nodes@[i].position(), self.nodes@[i].buckets()))
    }

    /// Events kept per kind at each node.
    pub closed spec fn max(&self) -> nat {
        self.max_events_per_node as nat
    }

    /// How long events are kept, in milliseconds.
    pub closed spec fn retention_ms(&self) -> u64 {
        self.retention
    }

    pub closed spec fn wf(&self) -> bool {
        &&& self.nodes@.len() == self.ids.names().len()
        &&& forall|i: int| 0 <= i < self.nodes@.len() ==> #[trigger] self.ids.slots()[i] == i
        &&& forall|i: int| 0 <= i < self.nodes@.len() ==> (#[trigger] self.nodes@[i]).wf()
        &&& forall|i: int| 0 <= i < self.nodes@.len() ==> (#[trigger] self.nodes@[i]).max() == self.max_events_per_node
        &&& forall|i: int| 0 <= i < self.nodes@.len() ==> (#[trigger] self.nodes@[i]).position() == node_position(i as nat)
        &&& self.next_node_index == node_position(self.nodes@.len())
    }

    /// An empty store keeping `max_events_per_node` events per kind at each
    /// node, for `retention` milliseconds.
    pub fn new(max_events_per_node: usize, retention: u64) -> (r: Self)
        ensures
            r.wf(),
            r.node_ids() == Seq::<Seq<char>>::empty(),
            r.node_views() == Seq::<(u16, BucketsView)>::empty(),
            r.max() == max_events_per_node,
            r.retention_ms() == retention,
    {
        let r = EventStore {
            ids: NodeIndex::new(),
            nodes: Vec::new(),
            max_events_per_node,
            retention,
            next_node_index: 0,
        };
        assert(r.node_views() =~= Seq::<(u16, BucketsView)>::empty());
        r
    }

    /// Stores an event for a node, registering the node at the next position
    /// when new. The event joins its kind's bucket at that node, which drops
    /// its oldest event when full.
    pub fn push(&mut self, node_id: &str, event: Event, timestamp: u64)
        requires
            old(self).wf(),
        ensures
            final(self).wf(),
            final(self).max() == old(self).max(),
            final(self).retention_ms() == old(self).retention_ms(),
            final(self).node_ids() == ids_after_push(old(self).node_ids(), node_id@),
            final(self).node_views() == views_after_push(
                old(self).node_ids(),
                old(self).node_views(),
                node_id@,
                StoredEvent { timestamp, event },
                old(self).max(),
            ),
    {
        let ghost e = StoredEvent { timestamp, event };
        let ghost views0 = self.node_views();
        let p = match self.ids.position(node_id) {
            Some(p) => {
                proof {
                    assert(self.ids.names().contains(node_id@));
                }
                p
            }
            None => {
                let idx = self.next_node_index;
                self.next_node_index = if self.next_node_index < u16::MAX { self.next_node_index + 1 } else { u16::MAX };
                let count = self.nodes.len();
                self.ids.insert_new(node_id, count);
                self.nodes.push(NodeEvents::new(idx, self.max_events_per_node));
                proof {
                    let names = self.ids.names();
                    assert(names[count as int] == node_id@);
                    assert(names.contains(node_id@));
                    use_type_invariant(&self.ids);
                    self.ids.lemma_inv();
                    let k = names.index_of(node_id@);
                    assert(names[k] == node_id@);
                    if k != count as int {
                        assert(names[k] == names[count as int]);
                    }
                    assert forall|i: int| 0 <= i < self.nodes@.len() implies #[trigger] self.ids.slots()[i] == i by {
                        if i < count {
                            assert(self.ids.slots()[i] == old(self).ids.slots()[i]);
                        }
                    }
                    assert forall|i: int| 0 <= i < self.nodes@.len() implies (#[trigger] self.nodes@[i]).wf() by {
                        if i < count {
                            assert(self.nodes@[i] == old(self).nodes@[i]);
                        }
                    }
                    assert forall|i: int| 0 <= i < self.nodes@.len() implies (#[trigger] self.nodes@[i]).max() == self.max_events_per_node by {
                        if i < count {
                            assert(self.nodes@[i] == old(self).nodes@[i]);
                        }
                    }
                    assert forall|i: int| 0 <= i < self.nodes@.len() implies (#[trigger] self.nodes@[i]).position() == node_position(i as nat) by {
                        if i < count {
                            assert(self.nodes@[i] == old(self).nodes@[i]);
                        }
                    }
                }
                count
            }
        };
        let ghost mid_views = self.node_views();
        let ghost mid_nodes = self.nodes@;
        self.nodes[p].push(event, timestamp);
        proof {
            assert forall|i: int| 0 <= i < self.nodes@.len() implies (#[trigger] self.nodes@[i]).wf() by {
                if i != p as int {
                    assert(self.nodes@[i] == mid_nodes[i]);
                }
            }
            assert forall|i: int| 0 <= i < self.nodes@.len() implies (#[trigger] self.nodes@[i]).max() == self.max_events_per_node by {
                if i != p as int {
                    assert(self.nodes@[i] == mid_nodes[i]);
                }
            }
            assert forall|i: int| 0 <= i < self.nodes@.len() implies (#[trigger] self.nodes@[i]).position() == node_position(i as nat) by {
                if i != p as int {
                    assert(self.nodes@[i] == mid_nodes[i]);
                }
            }
            assert(self.node_views() =~= mid_views.update(
                p as int,
                (mid_views[p as int].0, buckets_after_push(mid_views[p as int].1, e, self.max_events_per_node as nat)),
            ));
            match name_position(old(self).node_ids(), node_id@) {
                Some(q) => {
                    assert(q == p as int);
                }
                None => {
                    assert(mid_views =~= views0.push((node_position(views0.len()), Seq::empty())));
                    assert(self.node_views() =~= views0.push(
                        (node_position(views0.len()), buckets_after_push(Seq::empty(), e, self.max_events_per_node as nat)),
                    ));
                }
            }
        }
    }

    /// Visualisation position of a node, if seen.
    pub open spec fn position_of_node(&self, node_id: Seq<char>) -> Option<u16> {
        match name_position(self.node_ids(), node_id) {
            Some(p) => Some(self.node_views()[p].0),
            None => None,
        }
    }

    /// Visualisation position of a node, if seen.
    pub fn node_index(&self, node_id: &str) -> (r: Option<u16>)
        requires
            self.wf(),
        ensures
            r == self.position_of_node(node_id@),
    {
        match self.ids.position(node_id) {
            Some(p) => Some(self.nodes[p].index),
            None => None,
        }
    }

    /// Every node with its id, in order of first sight.
    pub fn nodes(&self) -> (r: Vec<(&str, &NodeEvents)>)
        requires
            self.wf(),
        ensures
            r@.len() == self.node_ids().len(),
            forall|i: int| 0 <= i < r@.len() ==> (#[trigger] r@[i]).0@ == self.node_ids()[i],
            forall|i: int| 0 <= i < r@.len() ==> (#[trigger] r@[i]).1.buckets() == self.node_views()[i].1,
            forall|i: int| 0 <= i < r@.len() ==> (#[trigger] r@[i]).1.position() == self.node_views()[i].0,
    {
        let mut out: Vec<(&str, &NodeEvents)> = Vec::new();
        let mut i: usize = 0;
        while i < self.nodes.len()
            invariant
                i <= self.nodes@.len(),
                self.wf(),
                out@.len() == i,
                forall|j: int| 0 <= j < i ==> (#[trigger] out@[j]).0@ == self.node_ids()[j],
                forall|j: int| 0 <= j < i ==> (#[trigger] out@[j]).1 == self.nodes@[j],
            decreases self.nodes@.len() - i,
        {
            out.push((self.ids.name_at(i), &self.nodes[i]));
            i = i + 1;
        }
        out
    }

    /// The stored events of one kind at one node, if that node has a bucket
    /// for that kind.
    pub fn node_events(&self, node_id: &str, event_type: u8) -> (r: Option<&VecDeque<StoredEvent>>)
        requires
            self.wf(),
        ensures
            match name_position(self.node_ids(), node_id@) {
                Some(p) => match find_bucket(self.node_views()[p].1, event_type) {
                    Some(k) => r is Some && r.unwrap()@ == self.node_views()[p].1[k].1,
                    None => r is None,
                },
                None => r is None,
            },
    {
        match self.ids.position(node_id) {
            Some(p) => {
                proof {
                    assert(self.ids.names().contains(node_id@));
                    assert(p < self.nodes@.len());
                }
                let node = &self.nodes[p];
                let ghost bs = node.buckets();
                proof {
                    assert(*node == self.nodes@[p as int]);
                    assert(self.nodes@[p as int].wf());
                    assert(self.node_views()[p as int].1 == bs);
                    lemma_find_bucket(bs, event_type);
                }
                let mut k: usize = 0;
                while k < node.by_type.len()
                    invariant
                        k <= node.by_type@.len(),
                        bs == node.buckets(),
                        node.wf(),
                        self.node_views()[p as int].1 == bs,
                        name_position(self.node_ids(), node_id@) == Some(p as int),
                        match find_bucket(bs, event_type) {
                            Some(k2) => 0 <= k2 < bs.len() && bs[k2].0 == event_type,
                            None => forall|i: int| 0 <= i < bs.len() ==> #[trigger] bs[i].0 != event_type,
                        },
                        forall|j: int| 0 <= j < k ==> #[trigger] bs[j].0 != event_type,
                    decreases node.by_type@.len() - k,
                {
                    if node.by_type[k].event_type == event_type {
                        proof {
                            assert(bs[k as int].0 == node.by_type@[k as int].event_type);
                            assert(bs[k as int].1 == node.by_type@[k as int].events@);
                            match find_bucket(bs, event_type) {
                                Some(k2) => {
                                    if k2 != k as int {
                                        assert(bs[k2].0 == bs[k as int].0);
                                        assert(node.wf());
                                        assert(buckets_wf(bs, node.max()));
                                        if k2 < k as int {
                                            assert(bs[k2].0 != bs[k as int].0);
                                        } else {
                                            assert(bs[k as int].0 != bs[k2].0);
                                        }
                                    }
                                    assert(k2 == k as int);
                                }
                                None => {
                                    assert(bs[k as int].0 == event_type);
                                }
                            }
                        }
                        let r = &node.by_type[k].events;
                        proof {
                            assert(r@ == bs[k as int].1);
                        }
                        return Some(r);
                    }
                    k = k + 1;
                }
                proof {
                    assert(self.node_views()[p as int].1 == bs);
                }
                None
            }
            None => None,
        }
    }

    /// A well-formed store has one view (position and buckets) per node id.
    pub proof fn lemma_views_match_ids(&self)
        requires
            self.wf(),
        ensures
            self.node_views().len() == self.node_ids().len(),
    {
    }

    /// Number of nodes seen.
    pub fn node_count(&self) -> (r: usize)
        requires
            self.wf(),
        ensures
            r == self.node_ids().len(),
    {
        self.nodes.len()
    }

    /// Peer count shown at each ring position: one entry per node seen (one
    /// entry when there is none). The node at position `k` shows its latest
    /// peer count in `series`, or 0 when it has none. Nodes past the last
    /// position share it, and the last of them with a count shows it.
    pub fn peer_counts(&self, series: &TimeSeriesData<u32>) -> (r: Vec<u32>)
        requires
            self.wf(),
        ensures
            r@.len() == if self.node_ids().len() > 0 { self.node_ids().len() } else { 1 },
            forall|k: int| 0 <= k < r@.len() && k < u16::MAX ==> #[trigger] r@[k] == if k < self.node_ids().len() {
                count_or_zero(series.latest_of(self.node_ids()[k]))
            } else {
                0
            },
            r@.len() > u16::MAX ==> shared_last_count(*series, self.node_ids(), r@[u16::MAX as int]),
    {
        let n = self.nodes.len();
        let nc = if n > 0 { n } else { 1 };
        let ghost ids = self.node_ids();
        let mut counts: Vec<u32> = Vec::new();
        while counts.len() < nc
            invariant
                counts@.len() <= nc,
                forall|k: int| 0 <= k < counts@.len() ==> #[trigger] counts@[k] == 0,
            decreases nc - counts@.len(),
        {
            counts.push(0);
        }
        let mut i: usize = 0;
        while i < n
            invariant
                self.wf(),
                n == self.nodes@.len(),
                ids == self.node_ids(),
                ids.len() == n,
                nc == if n > 0 { n } else { 1 },
                i <= n,
                counts@.len() == nc,
                forall|k: int| 0 <= k < nc && k < u16::MAX ==> #[trigger] counts@[k] == if k < i {
                    count_or_zero(series.latest_of(ids[k]))
                } else {
                    0
                },
                nc > u16::MAX ==> shared_last_count(*series, ids.take(i as int), counts@[u16::MAX as int]),
            decreases n - i,
        {
            let idx = self.nodes[i].index as usize;
            let name = self.ids.name_at(i);
            let ghost before = counts@;
            proof {
                assert(self.nodes@[i as int].position() == node_position(i as nat));
                assert(ids.take(i + 1) =~= ids.take(i as int).push(ids[i as int]));
            }
            match series.latest_value(name) {
                Some(c) => {
                    counts.set(idx, c);
                    proof {
                        if nc > u16::MAX {
                            let t = ids.take(i + 1);
                            if i >= u16::MAX {
                                assert(t[i as int] == ids[i as int]);
                                assert(u16::MAX <= i as int && i < t.len() && series.latest_of(t[i as int]) == Some(
                                    counts@[u16::MAX as int],
                                ));
                            } else {
                                let prev = counts@[u16::MAX as int];
                                assert(prev == before[u16::MAX as int]);
                                assert forall|j: int| u16::MAX <= j < t.len() implies series.latest_of(#[trigger] t[j])
                                    is None by {}
                            }
                        }
                    }
                }
                None => {
                    proof {
                        if nc > u16::MAX {
                            let t = ids.take(i + 1);
                            let p = ids.take(i as int);
                            let v = counts@[u16::MAX as int];
                            if i >= u16::MAX {
                                assert(series.latest_of(t[i as int]) is None);
                                if exists|j: int| u16::MAX <= j < p.len() && series.latest_of(#[trigger] p[j]) == Some(v)
                                    && forall|m: int| j < m < p.len() ==> series.latest_of(#[trigger] p[m]) is None {
                                    let j = choose|j: int| u16::MAX <= j < p.len() && series.latest_of(#[trigger] p[j])
                                        == Some(v) && forall|m: int| j < m < p.len() ==> series.latest_of(#[trigger] p[m]) is None;
                                    assert(t[j] == p[j]);
                                    assert forall|m: int| j < m < t.len() implies series.latest_of(#[trigger] t[m]) is None by {
                                        if m < p.len() {
                                            assert(t[m] == p[m]);
                                        }
                                    }
                                } else {
                                    assert forall|m: int| u16::MAX <= m < t.len() implies series.latest_of(#[trigger] t[m]) is None by {
                                        if m < p.len() {
                                            assert(t[m] == p[m]);
                                        }
                                    }
                                }
                            } else {
                                assert forall|m: int| u16::MAX <= m < t.len() implies series.latest_of(#[trigger] t[m]) is None by {}
                            }
                        }
                    }
                }
            }
            i = i + 1;
        }
        proof {
            assert(ids.take(n as int) =~= ids);
        }
        counts
    }
}

} // verus!

verus! {


/// `now` rounded down to a whole number of bucket durations.
pub open spec fn aligned_now(now: u64, bucket_duration: u64) -> int {
    (now / bucket_duration) * bucket_duration
}

/// Rate bucket of an event stamped `ts`: buckets span `bd` each and end at
/// `aligned`, numbered oldest first, the newest last; `None` outside the
/// `nb` buckets' window.
pub open spec fn rate_slot(ts: u64, aligned: int, bd: int, nb: int) -> Option<int> {
    if ts < aligned && aligned - ts <= bd * nb {
        let b = (aligned - ts) / bd;
        let bi = if b < nb - 1 { b } else { nb - 1 };
        Some(nb - 1 - bi)
    } else {
        None
    }
}

/// Number of events of `evs` falling in rate bucket `j`.
pub open spec fn count_in_slot(evs: Seq<StoredEvent>, j: int, aligned: int, bd: int, nb: int) -> nat
    decreases evs.len(),
{
    if evs.len() == 0 {
        0
    } else {
        count_in_slot(evs.drop_last(), j, aligned, bd, nb) + if rate_slot(evs.last().timestamp, aligned, bd, nb)
            == Some(j) {
            1nat
        } else {
            0nat
        }
    }
}

/// Whether the filter enables kind code `t` (codes past its end are off).
pub open spec fn type_enabled(filter: Seq<bool>, t: u8) -> bool {
    (t as int) < filter.len() && filter[t as int]
}

/// Number of a node's events of enabled kinds falling in rate bucket `j`.
pub open spec fn node_rate(bs: BucketsView, filter: Seq<bool>, j: int, aligned: int, bd: int, nb: int) -> nat
    decreases bs.len(),
{
    if bs.len() == 0 {
        0
    } else {
        node_rate(bs.drop_last(), filter, j, aligned, bd, nb) + if type_enabled(filter, bs.last().0) {
            count_in_slot(bs.last().1, j, aligned, bd, nb)
        } else {
            0nat
        }
    }
}

/// `n` as a `u32`, saturating at `u32::MAX`.
pub open spec fn saturate(n: nat) -> u32 {
    if n > u32::MAX { u32::MAX } else { n as u32 }
}

fn slot_for(ts: u64, aligned: u64, bd: u64, nb: usize) -> (r: Option<usize>)
    requires
        bd > 0,
    ensures
        match r {
            Some(j) => j < nb && rate_slot(ts, aligned as int, bd as int, nb as int) == Some(j as int),
            None => rate_slot(ts, aligned as int, bd as int, nb as int) is None,
        },
{
    if ts >= aligned {
        return None;
    }
    let age = aligned - ts;
    proof {
        assert((bd as u128) * (nb as u128) <= u128::MAX) by (nonlinear_arith)
            requires
                bd <= u64::MAX,
                nb <= u64::MAX,
        ;
    }
    if (age as u128) > (bd as u128) * (nb as u128) {
        return None;
    }
    proof {
        if nb == 0 {
            assert(bd * nb == 0) by (nonlinear_arith)
                requires
                    nb == 0,
            ;
        }
    }
    let b = age / bd;
    let last = nb - 1;
    let bi: usize = if (b as u128) < (last as u128) { b as usize } else { last };
    Some(last - bi)
}

fn node_rates(node: &NodeEvents, aligned: u64, bd: u64, nb: usize, filter: &[bool]) -> (r: Vec<u32>)
    requires
        bd > 0,
    ensures
        r@.len() == nb,
        forall|j: int| 0 <= j < nb ==> #[trigger] r@[j] == saturate(
            node_rate(node.buckets(), filter@, j, aligned as int, bd as int, nb as int),
        ),
{
    let ghost bs = node.buckets();
    let ghost al = aligned as int;
    let ghost bdi = bd as int;
    let ghost nbi = nb as int;
    let mut counts: Vec<u32> = Vec::new();
    let mut z: usize = 0;
    while z < nb
        invariant
            z <= nb,
            counts@.len() == z,
            forall|j: int| 0 <= j < z ==> #[trigger] counts@[j] == 0u32,
        decreases nb - z,
    {
        counts.push(0);
        z = z + 1;
    }
    let mut k: usize = 0;
    while k < node.by_type.len()
        invariant
            bd > 0,
            al == aligned as int,
            bdi == bd as int,
            nbi == nb as int,
            k <= node.by_type@.len(),
            bs == node.buckets(),
            counts@.len() == nb,
            forall|j: int| 0 <= j < nb ==> #[trigger] counts@[j] == saturate(node_rate(bs.take(k as int), filter@, j, al, bdi, nbi)),
        decreases node.by_type@.len() - k,
    {
        let t = node.by_type[k].event_type;
        proof {
            assert(bs.take(k + 1).drop_last() =~= bs.take(k as int));
            assert(bs.take(k + 1).last() == bs[k as int]);
            assert(bs[k as int].0 == t);
        }
        if (t as usize) < filter.len() && filter[t as usize] {
            let events = &node.by_type[k].events;
            let ghost evs = events@;
            proof {
                assert(bs[k as int].1 == evs);
            }
            let mut m: usize = 0;
            while m < events.len()
                invariant
                    bd > 0,
                    al == aligned as int,
                    bdi == bd as int,
                    nbi == nb as int,
                    m <= evs.len(),
                    evs == events@,
                    counts@.len() == nb,
                    forall|j: int| 0 <= j < nb ==> #[trigger] counts@[j] == saturate(
                        node_rate(bs.take(k as int), filter@, j, al, bdi, nbi) + count_in_slot(evs.take(m as int), j, al, bdi, nbi),
                    ),
                decreases evs.len() - m,
            {
                let ts = events[m].timestamp;
                proof {
                    assert(evs.take(m + 1).drop_last() =~= evs.take(m as int));
                    assert(evs.take(m + 1).last() == evs[m as int]);
                }
                let ghost before = counts@;
                let sl = slot_for(ts, aligned, bd, nb);
                match sl {
                    Some(j0) => {
                        let c = counts[j0];
                        let nc = if c < u32::MAX { c + 1 } else { c };
                        counts.set(j0, nc);
                    }
                    None => {}
                }
                proof {
                    assert forall|j: int| 0 <= j < nb implies #[trigger] counts@[j] == saturate(
                        node_rate(bs.take(k as int), filter@, j, al, bdi, nbi) + count_in_slot(evs.take(m + 1), j, al, bdi, nbi),
                    ) by {
                        let x = node_rate(bs.take(k as int), filter@, j, al, bdi, nbi) + count_in_slot(evs.take(m as int), j, al, bdi, nbi);
                        assert(before[j] == saturate(x));
                        assert(evs.take(m + 1).last().timestamp == ts);
                        match sl {
                            Some(j0) => {
                                if j == j0 as int {
                                    let t1 = evs.take(m + 1);
                                    assert(t1.len() > 0);
                                    assert(t1.drop_last() == evs.take(m as int));
                                    assert(t1.last().timestamp == ts);
                                    assert(rate_slot(ts, al, bdi, nbi) == Some(j));
                                    assert(count_in_slot(t1, j, al, bdi, nbi) == count_in_slot(t1.drop_last(), j, al, bdi, nbi) + 1);
                                    assert(count_in_slot(evs.take(m + 1), j, al, bdi, nbi) == count_in_slot(evs.take(m as int), j, al, bdi, nbi) + 1);
                                } else {
                                    assert(counts@[j] == before[j]);
                                }
                            }
                            None => {}
                        }
                    }
                }
                m = m + 1;
            }
            proof {
                assert(evs.take(evs.len() as int) =~= evs);
            }
        }
        k = k + 1;
    }
    proof {
        assert(bs.take(bs.len() as int) =~= bs);
    }
    counts
}

/// Events of `s` left after dropping, from the front, those stamped before
/// `cutoff`.
pub open spec fn drop_expired(s: Seq<StoredEvent>, cutoff: int) -> Seq<StoredEvent>
    decreases s.len(),
{
    if s.len() > 0 && s[0].timestamp < cutoff {
        drop_expired(s.drop_first(), cutoff)
    } else {
        s
    }
}

/// `drop_expired` keeps a suffix, whose first event (if any) is not expired.
pub proof fn lemma_drop_expired(s: Seq<StoredEvent>, cutoff: int) -> (d: int)
    ensures
        0 <= d <= s.len(),
        drop_expired(s, cutoff) == s.subrange(d, s.len() as int),
        forall|i: int| 0 <= i < d ==> #[trigger] s[i].timestamp < cutoff,
        d < s.len() ==> s[d].timestamp >= cutoff,
    decreases s.len(),
{
    if s.len() > 0 && s[0].timestamp < cutoff {
        let d1 = lemma_drop_expired(s.drop_first(), cutoff);
        assert(s.drop_first().subrange(d1, s.len() - 1) =~= s.subrange(d1 + 1, s.len() as int));
        assert forall|i: int| 0 <= i < d1 + 1 implies #[trigger] s[i].timestamp < cutoff by {
            if i > 0 {
                assert(s[i] == s.drop_first()[i - 1]);
            }
        }
        if d1 + 1 < s.len() {
            assert(s[d1 + 1] == s.drop_first()[d1]);
        }
        d1 + 1
    } else {
        assert(s.subrange(0, s.len() as int) =~= s);
        0
    }
}

/// Buckets after pruning every event stamped before `cutoff`.
pub open spec fn pruned_buckets(bs: BucketsView, cutoff: int) -> BucketsView {
    Seq::new(bs.len(), |k: int| (bs[k].0, drop_expired(bs[k].1, cutoff)))
}

impl EventStore {
    /// Event counts per node in `num_buckets` buckets of `bucket_duration`
    /// milliseconds each, ending at `now` rounded down to a whole bucket,
    /// oldest bucket first; only kinds enabled in `event_filter` count. One
    /// entry per node, in order of first sight, with the node's position.
    /// Counts saturate at `u32::MAX`.
    pub fn compute_rates_per_node(
        &self,
        now: u64,
        bucket_duration: u64,
        num_buckets: usize,
        event_filter: &[bool],
    ) -> (r: Vec<(u16, Vec<u32>)>)
        requires
            self.wf(),
            bucket_duration > 0,
        ensures
            r@.len() == self.node_views().len(),
            forall|i: int| 0 <= i < r@.len() ==> (#[trigger] r@[i]).0 == self.node_views()[i].0,
            forall|i: int| 0 <= i < r@.len() ==> (#[trigger] r@[i]).1@.len() == num_buckets,
            forall|i: int, j: int| 0 <= i < r@.len() && 0 <= j < num_buckets ==> #[trigger] r@[i].1@[j] == saturate(
                node_rate(
                    self.node_views()[i].1,
                    event_filter@,
                    j,
                    aligned_now(now, bucket_duration),
                    bucket_duration as int,
                    num_buckets as int,
                ),
            ),
    {
        proof {
            vstd::arithmetic::div_mod::lemma_fundamental_div_mod(now as int, bucket_duration as int);
            let q = now as int / bucket_duration as int;
            assert(q * bucket_duration <= now) by (nonlinear_arith)
                requires
                    now == bucket_duration * q + now as int % bucket_duration as int,
                    now as int % bucket_duration as int >= 0,
            ;
            assert(q >= 0);
            assert(q * bucket_duration >= 0) by (nonlinear_arith)
                requires
                    q >= 0,
            ;
        }
        let aligned = (now / bucket_duration) * bucket_duration;
        let mut out: Vec<(u16, Vec<u32>)> = Vec::new();
        let mut i: usize = 0;
        while i < self.nodes.len()
            invariant
                i <= self.nodes@.len(),
                bucket_duration > 0,
                aligned as int == aligned_now(now, bucket_duration),
                out@.len() == i,
                forall|n: int| 0 <= n < i ==> (#[trigger] out@[n]).0 == self.node_views()[n].0,
                forall|n: int| 0 <= n < i ==> (#[trigger] out@[n]).1@.len() == num_buckets,
                forall|n: int, j: int| 0 <= n < i && 0 <= j < num_buckets ==> #[trigger] out@[n].1@[j] == saturate(
                    node_rate(
                        self.node_views()[n].1,
                        event_filter@,
                        j,
                        aligned_now(now, bucket_duration),
                        bucket_duration as int,
                        num_buckets as int,
                    ),
                ),
            decreases self.nodes@.len() - i,
        {
            let rates = node_rates(&self.nodes[i], aligned, bucket_duration, num_buckets, event_filter);
            out.push((self.nodes[i].index, rates));
            i = i + 1;
        }
        out
    }

    /// Drops, from the front of every bucket, the events stamped more than the
    /// retention period before `now`.
    pub fn prune(&mut self, now: u64)
        requires
            old(self).wf(),
        ensures
            final(self).wf(),
            final(self).node_ids() == old(self).node_ids(),
            final(self).max() == old(self).max(),
            final(self).retention_ms() == old(self).retention_ms(),
            final(self).node_views().len() == old(self).node_views().len(),
            forall|i: int| 0 <= i < old(self).node_views().len() ==> #[trigger] final(self).node_views()[i] == if now
                >= old(self).retention_ms() {
                (
                    old(self).node_views()[i].0,
                    pruned_buckets(old(self).node_views()[i].1, now - old(self).retention_ms()),
                )
            } else {
                old(self).node_views()[i]
            },
    {
        if now < self.retention {
            return;
        }
        let cutoff = now - self.retention;
        let ghost views0 = self.node_views();
        let mut i: usize = 0;
        while i < self.nodes.len()
            invariant
                i <= self.nodes@.len(),
                self.ids == old(self).ids,
                self.max_events_per_node == old(self).max_events_per_node,
                self.retention == old(self).retention,
                self.next_node_index == old(self).next_node_index,
                cutoff == now - self.retention,
                views0 == old(self).node_views(),
                self.nodes@.len() == views0.len(),
                self.nodes@.len() == self.ids.names().len(),
                forall|n: int| 0 <= n < self.nodes@.len() ==> #[trigger] self.ids.slots()[n] == n,
                forall|n: int| 0 <= n < self.nodes@.len() ==> (#[trigger] self.nodes@[n]).wf(),
                forall|n: int| 0 <= n < self.nodes@.len() ==> (#[trigger] self.nodes@[n]).max() == self.max_events_per_node,
                forall|n: int| 0 <= n < self.nodes@.len() ==> (#[trigger] self.nodes@[n]).position() == node_position(n as nat),
                self.next_node_index == node_position(self.nodes@.len()),
                forall|n: int| 0 <= n < i ==> #[trigger] self.node_views()[n] == (views0[n].0, pruned_buckets(views0[n].1, cutoff as int)),
                forall|n: int| i <= n < views0.len() ==> #[trigger] self.node_views()[n] == views0[n],
            decreases self.nodes@.len() - i,
        {
            let ghost before = self.nodes@;
            let ghost vv = self.node_views();
            proof {
                assert(self.node_views()[i as int] == views0[i as int]);
                assert forall|n: int| 0 <= n < before.len() implies #[trigger] vv[n] == (before[n].position(), before[n].buckets()) by {}
            }
            prune_node(&mut self.nodes[i], cutoff);
            proof {
                assert forall|n: int| 0 <= n < self.nodes@.len() && n != i implies #[trigger] self.nodes@[n] == before[n] by {}
                assert(self.node_views()[i as int] == (views0[i as int].0, pruned_buckets(views0[i as int].1, cutoff as int)));
                assert forall|n: int| 0 <= n < i + 1 implies #[trigger] self.node_views()[n] == (views0[n].0, pruned_buckets(views0[n].1, cutoff as int)) by {
                    if n < i {
                        assert(self.nodes@[n] == before[n]);
                        assert(vv[n] == self.node_views()[n]);
                    }
                }
                assert forall|n: int| i + 1 <= n < views0.len() implies #[trigger] self.node_views()[n] == views0[n] by {
                    assert(self.nodes@[n] == before[n]);
                    assert(vv[n] == self.node_views()[n]);
                }
            }
            i = i + 1;
        }
    }
}

fn prune_bucket(events: &mut VecDeque<StoredEvent>, cutoff: u64)
    ensures
        final(events)@ == drop_expired(old(events)@, cutoff as int),
{
    let ghost orig = events@;
    loop
        invariant
            drop_expired(events@, cutoff as int) == drop_expired(orig, cutoff as int),
        ensures
            events@ == drop_expired(orig, cutoff as int),
        decreases events@.len(),
    {
        if events.len() == 0 {
            break;
        }
        if events[0].timestamp >= cutoff {
            break;
        }
        let ghost cur = events@;
        events.pop_front();
        proof {
            assert(events@ =~= cur.drop_first());
        }
    }
}

fn prune_node(node: &mut NodeEvents, cutoff: u64)
    requires
        old(node).wf(),
    ensures
        final(node).wf(),
        final(node).max() == old(node).max(),
        final(node).position() == old(node).position(),
        final(node).buckets() == pruned_buckets(old(node).buckets(), cutoff as int),
{
    let ghost bs0 = node.buckets();
    let n = node.by_type.len();
    let mut k: usize = 0;
    while k < n
        invariant
            k <= n,
            n == bs0.len(),
            node.by_type@.len() == n,
            node.max() == old(node).max(),
            node.position() == old(node).position(),
            bs0 == old(node).buckets(),
            buckets_wf(bs0, node.max()),
            forall|b: int| 0 <= b < k ==> #[trigger] node.buckets()[b] == (bs0[b].0, drop_expired(bs0[b].1, cutoff as int)),
            forall|b: int| k <= b < n ==> #[trigger] node.buckets()[b] == bs0[b],
        decreases n - k,
    {
        let ghost before = node.by_type@;
        let ghost bb = node.buckets();
        proof {
            assert(node.buckets()[k as int] == bs0[k as int]);
            assert forall|b: int| 0 <= b < n implies #[trigger] bb[b] == (before[b].event_type, before[b].events@) by {}
        }
        prune_bucket(&mut node.by_type[k].events, cutoff);
        proof {
            assert forall|b: int| 0 <= b < n && b != k implies #[trigger] node.by_type@[b] == before[b] by {}
            assert forall|b: int| 0 <= b < k + 1 implies #[trigger] node.buckets()[b] == (bs0[b].0, drop_expired(bs0[b].1, cutoff as int)) by {
                if b < k {
                    assert(node.by_type@[b] == before[b]);
                    assert(bb[b] == node.buckets()[b]);
                } else {
                    assert(node.by_type@[b].event_type == before[b].event_type);
                    assert(bb[b] == bs0[b]);
                }
            }
            assert forall|b: int| k + 1 <= b < n implies #[trigger] node.buckets()[b] == bs0[b] by {
                assert(node.by_type@[b] == before[b]);
                assert(bb[b] == node.buckets()[b]);
            }
        }
        k = k + 1;
    }
    proof {
        let nb = node.buckets();
        assert(nb =~= pruned_buckets(bs0, cutoff as int));
        assert forall|i: int, m: int| 0 <= i < nb.len() && 0 <= m < nb[i].1.len() implies (#[trigger] nb[i].1[m]).event.kind().spec_code() == nb[i].0 by {
            let d = lemma_drop_expired(bs0[i].1, cutoff as int);
            assert(nb[i].1[m] == bs0[i].1[m + d]);
        }
        assert forall|i: int| 0 <= i < nb.len() implies (#[trigger] nb[i].1).len() <= if node.max() == 0 { 1 } else { node.max() } by {
            let d = lemma_drop_expired(bs0[i].1, cutoff as int);
        }
    }
}

} // verus!

verus! {

/// Events ordered by arrival time.
pub open spec fn chronological(s: Seq<StoredEvent>) -> bool {
    forall|i: int, j: int| 0 <= i <= j < s.len() ==> s[i].timestamp <= s[j].timestamp
}

/// Pruning keeps a suffix of a bucket and drops only expired events; from a
/// bucket in arrival order it drops exactly the expired ones.
pub proof fn law_prune_drops_only_expired(s: Seq<StoredEvent>, cutoff: int)
    ensures
        exists|d: int| 0 <= d <= s.len() && drop_expired(s, cutoff) == s.subrange(d, s.len() as int) && forall|i: int|
            0 <= i < d ==> #[trigger] s[i].timestamp < cutoff,
        chronological(s) ==> forall|i: int| 0 <= i < drop_expired(s, cutoff).len() ==> #[trigger] drop_expired(s, cutoff)[i].timestamp >= cutoff,
{
    let d = lemma_drop_expired(s, cutoff);
    if chronological(s) {
        assert forall|i: int| 0 <= i < drop_expired(s, cutoff).len() implies #[trigger] drop_expired(s, cutoff)[i].timestamp >= cutoff by {
            assert(drop_expired(s, cutoff)[i] == s[i + d]);
            assert(s[d].timestamp <= s[i + d].timestamp);
        }
    }
}

/// A stored event stays in its bucket after the next push unless the bucket
/// was full, in which case only the oldest event leaves.
pub proof fn law_push_keeps_newest(s: Seq<StoredEvent>, e: StoredEvent, max: nat)
    ensures
        appended(s, e, max).last() == e,
        appended(s, e, max).len() == if s.len() >= max && s.len() > 0 { s.len() } else { s.len() + 1 },
        appended(s, e, max).drop_last() == if s.len() >= max && s.len() > 0 { s.drop_first() } else { s },
{
    if s.len() >= max && s.len() > 0 {
        assert(appended(s, e, max).drop_last() =~= s.drop_first());
    } else {
        assert(appended(s, e, max).drop_last() =~= s);
    }
}


/// Events of kind code `t` in a node's buckets (empty when it has none).
pub open spec fn bucket_of(bs: BucketsView, t: u8) -> Seq<StoredEvent> {
    match find_bucket(bs, t) {
        Some(k) => bs[k].1,
        None => Seq::empty(),
    }
}

/// `find_bucket` reads only the codes of the buckets.
proof fn lemma_find_bucket_codes(bs: BucketsView, cs: BucketsView, t: u8)
    requires
        bs.len() == cs.len(),
        forall|i: int| 0 <= i < bs.len() ==> #[trigger] bs[i].0 == cs[i].0,
    ensures
        find_bucket(bs, t) == find_bucket(cs, t),
    decreases bs.len(),
{
    if bs.len() > 0 {
        assert(bs.last().0 == cs.last().0) by {
            assert(bs[bs.len() - 1].0 == cs[cs.len() - 1].0);
        }
        let (pb, pc) = (bs.drop_last(), cs.drop_last());
        assert forall|i: int| 0 <= i < pb.len() implies #[trigger] pb[i].0 == pc[i].0 by {
            assert(pb[i] == bs[i] && pc[i] == cs[i]);
        }
        lemma_find_bucket_codes(pb, pc, t);
    }
}

/// Storing an event adds it to the end of its kind's bucket at that node:
/// the bucket becomes the previous one with the event appended (its oldest
/// event dropped when it already held `max`), and the node's other buckets
/// keep their events.
pub proof fn law_push_lands_in_its_bucket(bs: BucketsView, e: StoredEvent, max: nat)
    ensures
        bucket_of(buckets_after_push(bs, e, max), e.event.kind().spec_code()) == appended(
            bucket_of(bs, e.event.kind().spec_code()),
            e,
            max,
        ),
        forall|c: u8| c != e.event.kind().spec_code() ==> #[trigger] bucket_of(buckets_after_push(bs, e, max), c)
            == bucket_of(bs, c),
{
    let t = e.event.kind().spec_code();
    let after = buckets_after_push(bs, e, max);
    lemma_find_bucket(bs, t);
    match find_bucket(bs, t) {
        Some(k) => {
            lemma_find_bucket_codes(after, bs, t);
            assert forall|c: u8| c != t implies #[trigger] bucket_of(after, c) == bucket_of(bs, c) by {
                lemma_find_bucket_codes(after, bs, c);
                lemma_find_bucket(bs, c);
            }
        },
        None => {
            assert(appended(Seq::<StoredEvent>::empty(), e, max) =~= seq![e]);
            assert forall|c: u8| c != t implies #[trigger] bucket_of(after, c) == bucket_of(bs, c) by {
                assert(after.last().0 == t);
                assert(after.drop_last() =~= bs);
                assert(find_bucket(after, c) == find_bucket(bs, c));
                lemma_find_bucket(bs, c);
                match find_bucket(bs, c) {
                    Some(k) => {
                        assert(after[k] == bs[k]);
                    },
                    None => {},
                }
            }
        },
    }
}

/// After an event from `node_id` is stored, that node is among the store's
/// nodes, and its bucket for the event's kind is the previous one (empty for
/// a new node) with the event appended, as `law_push_lands_in_its_bucket`
/// says.
pub proof fn law_stored_event_reaches_its_node(
    ids: Seq<Seq<char>>,
    views: Seq<(u16, BucketsView)>,
    node_id: Seq<char>,
    e: StoredEvent,
    max: nat,
)
    requires
        views.len() == ids.len(),
    ensures
        ({
            let ids2 = ids_after_push(ids, node_id);
            let views2 = views_after_push(ids, views, node_id, e, max);
            let before = match name_position(ids, node_id) {
                Some(p) => views[p].1,
                None => Seq::<(u8, Seq<StoredEvent>)>::empty(),
            };
            &&& name_position(ids2, node_id) is Some
            &&& views2[name_position(ids2, node_id).unwrap()].1 == buckets_after_push(before, e, max)
        }),
{
    if !ids.contains(node_id) {
        let ids2 = ids.push(node_id);
        assert(ids2[ids.len() as int] == node_id);
        assert(ids2.contains(node_id));
        let k = ids2.index_of(node_id);
        assert(ids2[k] == node_id);
        assert(k == ids.len());
    }
}

/// Counting the events of two runs together gives the sum of their counts.
pub proof fn law_slot_counts_add_up(e1: Seq<StoredEvent>, e2: Seq<StoredEvent>, j: int, aligned: int, bd: int, nb: int)
    ensures
        count_in_slot(e1 + e2, j, aligned, bd, nb) == count_in_slot(e1, j, aligned, bd, nb) + count_in_slot(
            e2,
            j,
            aligned,
            bd,
            nb,
        ),
    decreases e2.len(),
{
    if e2.len() == 0 {
        assert(e1 + e2 =~= e1);
    } else {
        law_slot_counts_add_up(e1, e2.drop_last(), j, aligned, bd, nb);
        assert((e1 + e2).drop_last() =~= e1 + e2.drop_last());
        assert((e1 + e2).last() == e2.last());
    }
}

/// A node's rate in a bucket is the sum over its kinds: the buckets of two
/// groups of kinds count together as the sum of their rates, so the events of
/// one enabled kind never hide those of another. A lone bucket counts its
/// events in that rate bucket when its kind is enabled, and nothing otherwise.
pub proof fn law_node_rate_sums_kinds(
    b1: BucketsView,
    b2: BucketsView,
    filter: Seq<bool>,
    j: int,
    aligned: int,
    bd: int,
    nb: int,
)
    ensures
        node_rate(b1 + b2, filter, j, aligned, bd, nb) == node_rate(b1, filter, j, aligned, bd, nb) + node_rate(
            b2,
            filter,
            j,
            aligned,
            bd,
            nb,
        ),
        forall|t: u8, evs: Seq<StoredEvent>| #[trigger] node_rate(seq![(t, evs)], filter, j, aligned, bd, nb) == if type_enabled(
            filter,
            t,
        ) {
            count_in_slot(evs, j, aligned, bd, nb)
        } else {
            0
        },
    decreases b2.len(),
{
    assert forall|t: u8, evs: Seq<StoredEvent>| #[trigger] node_rate(seq![(t, evs)], filter, j, aligned, bd, nb) == if type_enabled(
        filter,
        t,
    ) {
        count_in_slot(evs, j, aligned, bd, nb)
    } else {
        0
    } by {
        let one = seq![(t, evs)];
        let none = Seq::<(u8, Seq<StoredEvent>)>::empty();
        assert(one.drop_last() =~= none);
        assert(one.last() == (t, evs));
        assert(node_rate(none, filter, j, aligned, bd, nb) == 0);
        assert(node_rate(one, filter, j, aligned, bd, nb) == node_rate(one.drop_last(), filter, j, aligned, bd, nb)
            + if type_enabled(filter, t) { count_in_slot(evs, j, aligned, bd, nb) } else { 0nat });
    }
    if b2.len() == 0 {
        assert(b1 + b2 =~= b1);
    } else {
        law_node_rate_sums_kinds(b1, b2.drop_last(), filter, j, aligned, bd, nb);
        assert((b1 + b2).drop_last() =~= b1 + b2.drop_last());
        assert((b1 + b2).last() == b2.last());
    }
}

} // verus!
