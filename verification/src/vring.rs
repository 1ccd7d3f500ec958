//! Data behind the validators ring: particles for directed events, the
//! peer-to-position registry, and the ring buffer of recent particles.

use std::collections::VecDeque;
use vstd::prelude::*;
use crate::bits::{lemma_clear_bit, lemma_full_and_empty, lemma_set_bit, mask_bit};
use crate::events::{EventType, PeerId};

verus! {

broadcast use vstd::std_specs::vecdeque::group_vec_dequeue_axioms;

/// One particle on the ring: an event travelling from `source_index` to
/// `target_index` (equal indices mark a radial particle at one node).
/// Times are in milliseconds of app time; `curve` is the path deviation in
/// steps of 1/255, from -255 to 255.
#[derive(Clone, Copy, Debug)]
pub struct DirectedParticleInstance {
    pub source_index: u16,
    pub target_index: u16,
    pub birth_ms: u64,
    pub travel_duration_ms: u32,
    pub event_type: u8,
    pub curve: i16,
}

impl DirectedParticleInstance {
    /// A particle with the given fields.
    pub fn new(
        source_index: u16,
        target_index: u16,
        birth_ms: u64,
        travel_duration_ms: u32,
        event_type: u8,
        curve: i16,
    ) -> (r: Self)
        ensures
            r.source_index == source_index,
            r.target_index == target_index,
            r.birth_ms == birth_ms,
            r.travel_duration_ms == travel_duration_ms,
            r.event_type == event_type,
            r.curve == curve,
    {
        DirectedParticleInstance { source_index, target_index, birth_ms, travel_duration_ms, event_type, curve }
    }
}

/// A collapsing pulse at one node, emitted for authoring and work-package
/// submission events.
#[derive(Clone, Copy, Debug)]
pub struct PulseEvent {
    pub node_index: u16,
    pub event_type: EventType,
    pub birth_ms: u64,
}

/// How long a collapsing pulse stays on the ring, in milliseconds.
pub const PULSE_DURATION_MS: u64 = 400;

/// A pulse is still animating at `now_ms` when it is less than `duration_ms`
/// old (one stamped after `now_ms` counts as new).
pub open spec fn pulse_live(now_ms: u64, duration_ms: u64) -> spec_fn(PulseEvent) -> bool {
    |p: PulseEvent| now_ms < p.birth_ms + duration_ms
}

/// Drops the pulses that have finished animating; the others keep their
/// order.
pub fn retain_live_pulses(pulses: &mut Vec<PulseEvent>, now_ms: u64, duration_ms: u64)
    ensures
        final(pulses)@ == old(pulses)@.filter(pulse_live(now_ms, duration_ms)),
{
    let ghost orig = pulses@;
    let ghost live = pulse_live(now_ms, duration_ms);
    let mut kept: Vec<PulseEvent> = Vec::new();
    let mut i: usize = 0;
    while i < pulses.len()
        invariant
            i <= pulses@.len(),
            pulses@ == orig,
            live == pulse_live(now_ms, duration_ms),
            kept@ == orig.take(i as int).filter(live),
        decreases orig.len() - i,
    {
        let p = pulses[i];
        proof {
            lemma_filter_push(orig.take(i as int), p, live);
            assert(orig.take(i + 1) =~= orig.take(i as int).push(p));
        }
        if now_ms < p.birth_ms || now_ms - p.birth_ms < duration_ms {
            kept.push(p);
        }
        i = i + 1;
    }
    assert(orig.take(orig.len() as int) =~= orig);
    *pulses = kept;
}

/// Compares two peer ids byte by byte.
pub fn peer_id_eq(a: &PeerId, b: &PeerId) -> (r: bool)
    ensures
        r == (*a == *b),
{
    broadcast use vstd::array::group_array_axioms;
    let mut i: usize = 0;
    while i < 32
        invariant
            i <= 32,
            forall|j: int| 0 <= j < i ==> a[j] == b[j],
        decreases 32 - i,
    {
        if a[i] != b[i] {
            return false;
        }
        i = i + 1;
    }
    assert(a@ =~= b@);
    assert(*a =~= *b);
    true
}

/// Position of `p` in `peers`, if present.
pub open spec fn position_of(peers: Seq<PeerId>, p: PeerId) -> Option<int> {
    if peers.contains(p) {
        Some(peers.index_of(p))
    } else {
        None
    }
}

/// Maps peer ids to ring positions, handing out positions 0, 1, 2, ... in
/// order of first sight, up to a maximum number of validators.
#[derive(Debug)]
pub struct PeerRegistry {
    peers: Vec<PeerId>,
    max_validators: u16,
}

impl PeerRegistry {
    /// Registered peers; the position of a peer is its index here.
    pub closed spec fn peers(&self) -> Seq<PeerId> {
        self.peers@
    }

    /// Maximum number of peers this registry hands positions to.
    pub closed spec fn max(&self) -> nat {
        self.max_validators as nat
    }

    /// Peers are registered once each, and no more than the maximum.
    pub closed spec fn wf(&self) -> bool {
        &&& self.peers@.no_duplicates()
        &&& self.peers@.len() <= self.max_validators
    }

    /// An empty registry for at most `max_validators` peers.
    pub fn new(max_validators: u16) -> (r: Self)
        ensures
            r.wf(),
            r.peers() == Seq::<PeerId>::empty(),
            r.max() == max_validators,
    {
        PeerRegistry { peers: Vec::new(), max_validators }
    }

    fn find(&self, peer_id: &PeerId) -> (r: Option<u16>)
        requires
            self.wf(),
        ensures
            match r {
                Some(i) => position_of(self.peers(), *peer_id) == Some(i as int),
                None => position_of(self.peers(), *peer_id) is None,
            },
    {
        let mut i: usize = 0;
        while i < self.peers.len()
            invariant
                i <= self.peers@.len(),
                self.wf(),
                forall|j: int| 0 <= j < i ==> self.peers@[j] != *peer_id,
            decreases self.peers@.len() - i,
        {
            if peer_id_eq(&self.peers[i], peer_id) {
                proof {
                    assert(self.peers@.contains(*peer_id));
                    let k = self.peers@.index_of(*peer_id);
                    assert(self.peers@[k] == *peer_id);
                    assert(k == i) by {
                        if k < i {
                        } else if k > i {
                            assert(self.peers@[k] == self.peers@[i as int]);
                        }
                    }
                }
                return Some(i as u16);
            }
            i = i + 1;
        }
        None
    }

    /// Position of `peer_id`, registering it at the next free position when it
    /// is new; `None` when it is new and the registry is full.
    pub fn get_or_insert(&mut self, peer_id: &PeerId) -> (r: Option<u16>)
        requires
            old(self).wf(),
        ensures
            final(self).wf(),
            final(self).max() == old(self).max(),
            match position_of(old(self).peers(), *peer_id) {
                Some(i) => r == Some(i as u16) && final(self).peers() == old(self).peers(),
                None => if old(self).peers().len() < old(self).max() {
                    &&& r == Some(old(self).peers().len() as u16)
                    &&& final(self).peers() == old(self).peers().push(*peer_id)
                } else {
                    r is None && final(self).peers() == old(self).peers()
                },
            },
    {
        match self.find(peer_id) {
            Some(i) => Some(i),
            None => {
                if self.peers.len() >= self.max_validators as usize {
                    None
                } else {
                    let idx = self.peers.len() as u16;
                    let ghost before = self.peers@;
                    self.peers.push(*peer_id);
                    proof {
                        assert forall|a: int, b: int| 0 <= a < b < self.peers@.len() implies self.peers@[a] != self.peers@[b] by {
                            if b == before.len() {
                                assert(!before.contains(*peer_id));
                                assert(before[a] == self.peers@[a]);
                            }
                        }
                    }
                    Some(idx)
                }
            }
        }
    }

    /// Position of `peer_id` without registering it.
    pub fn get(&self, peer_id: &PeerId) -> (r: Option<u16>)
        requires
            self.wf(),
        ensures
            match position_of(self.peers(), *peer_id) {
                Some(i) => r == Some(i as u16),
                None => r is None,
            },
    {
        self.find(peer_id)
    }

    /// Number of registered peers.
    pub fn len(&self) -> (r: usize)
        ensures
            r == self.peers().len(),
    {
        self.peers.len()
    }

    /// Whether no peer is registered.
    pub fn is_empty(&self) -> (r: bool)
        ensures
            r == (self.peers().len() == 0),
    {
        self.peers.len() == 0
    }

    /// Forgets every peer; positions are handed out from 0 again.
    pub fn clear(&mut self)
        ensures
            final(self).wf(),
            final(self).peers() == Seq::<PeerId>::empty(),
            final(self).max() == old(self).max(),
    {
        self.peers = Vec::new();
    }
}

impl Default for PeerRegistry {
    fn default() -> (r: Self)
        ensures
            r.wf(),
            r.peers() == Seq::<PeerId>::empty(),
            r.max() == 1024,
    {
        Self::new(1024)
    }
}

/// Positions are stable: a registered peer keeps its position, and distinct
/// peers never share one.
pub proof fn law_registry_positions(reg: PeerRegistry, p: PeerId, q: PeerId)
    requires
        reg.wf(),
        reg.peers().contains(p),
        reg.peers().contains(q),
        p != q,
    ensures
        position_of(reg.peers(), p) is Some,
        position_of(reg.peers(), p) != position_of(reg.peers(), q),
        reg.peers()[position_of(reg.peers(), p).unwrap()] == p,
{
    let s = reg.peers();
    let i = s.index_of(p);
    let j = s.index_of(q);
    assert(s[i] == p && s[j] == q);
}

/// A registry holds at most its maximum of peers, and the positions it hands
/// out are exactly `0..len()`: the peer at index `i` has position `i`, and
/// every registered peer's position is below `len()`.
pub proof fn law_registry_bound_and_positions(reg: PeerRegistry)
    requires
        reg.wf(),
    ensures
        reg.peers().len() <= reg.max(),
        forall|i: int| 0 <= i < reg.peers().len() ==> #[trigger] position_of(reg.peers(), reg.peers()[i]) == Some(i),
        forall|p: PeerId| #[trigger] position_of(reg.peers(), p) is Some ==> 0 <= position_of(reg.peers(), p).unwrap()
            < reg.peers().len(),
{
    let s = reg.peers();
    assert forall|i: int| 0 <= i < s.len() implies #[trigger] position_of(s, s[i]) == Some(i) by {
        assert(s.contains(s[i]));
        let k = s.index_of(s[i]);
        assert(s[k] == s[i]);
    }
    assert forall|p: PeerId| #[trigger] position_of(s, p) is Some implies 0 <= position_of(s, p).unwrap() < s.len() by {
        let k = s.index_of(p);
        assert(s[k] == p);
    }
}

} // verus!

verus! {


/// Whether a particle is shown at time `now_ms`: born no more than
/// `max_age_ms` ago and of an enabled kind.
pub open spec fn is_active(p: DirectedParticleInstance, now_ms: u64, max_age_ms: u64, mask: [u64; 4]) -> bool {
    p.birth_ms as int >= now_ms as int - max_age_ms as int && mask_bit(mask, p.event_type as nat)
}

/// Selector of the particles shown at `now_ms`.
pub open spec fn active_at(now_ms: u64, max_age_ms: u64, mask: [u64; 4]) -> spec_fn(DirectedParticleInstance) -> bool {
    |p: DirectedParticleInstance| is_active(p, now_ms, max_age_ms, mask)
}

/// Largest number of particles a buffer of this capacity holds.
pub open spec fn holding_limit(capacity: nat) -> nat {
    if capacity == 0 { 1 } else { capacity }
}

/// Filtering a sequence extended by one element.
pub proof fn lemma_filter_push<A>(s: Seq<A>, x: A, pred: spec_fn(A) -> bool)
    ensures
        s.push(x).filter(pred) == if pred(x) { s.filter(pred).push(x) } else { s.filter(pred) },
{
    reveal(Seq::filter);
    assert(s.push(x).drop_last() =~= s);
}

/// The particles a buffer of `capacity` holds after a push: the new one is
/// appended, and the oldest leaves first when the buffer is full.
pub open spec fn items_after_push(
    items: Seq<DirectedParticleInstance>,
    p: DirectedParticleInstance,
    capacity: nat,
) -> Seq<DirectedParticleInstance> {
    if items.len() >= capacity && items.len() > 0 {
        items.drop_first().push(p)
    } else {
        items.push(p)
    }
}

/// The items of `s` whose flag in `kept` is true, in order.
pub open spec fn select(s: Seq<DirectedParticleInstance>, kept: Seq<bool>) -> Seq<DirectedParticleInstance>
    decreases s.len(),
{
    if s.len() == 0 {
        Seq::empty()
    } else {
        let rest = select(s.drop_last(), kept.drop_last());
        if kept.last() { rest.push(s.last()) } else { rest }
    }
}

/// Ring buffer of the most recent particles, with a per-kind enable mask and a
/// count of every particle ever pushed (for incremental upload).
pub struct DirectedEventBuffer {
    particles: VecDeque<DirectedParticleInstance>,
    capacity: usize,
    enabled_types: [u64; 4],
    total_pushed: u64,
    history: Ghost<Seq<DirectedParticleInstance>>,
}

impl DirectedEventBuffer {
    /// Particles held, oldest first.
    pub closed spec fn items(&self) -> Seq<DirectedParticleInstance> {
        self.particles@
    }

    /// Every particle ever pushed, oldest first.
    pub closed spec fn pushed(&self) -> Seq<DirectedParticleInstance> {
        self.history@
    }

    /// Capacity the buffer was made with.
    pub closed spec fn spec_capacity(&self) -> nat {
        self.capacity as nat
    }

    /// The enabled-kinds mask.
    pub closed spec fn mask(&self) -> [u64; 4] {
        self.enabled_types
    }

    /// Number of particles ever pushed.
    pub closed spec fn total(&self) -> nat {
        self.total_pushed as nat
    }

    /// The history counts every push, and no more particles are held than
    /// were pushed or than the capacity allows.
    pub closed spec fn wf(&self) -> bool {
        &&& self.history@.len() == self.total_pushed
        &&& self.particles@.len() <= self.total_pushed
        &&& self.particles@.len() <= holding_limit(self.capacity as nat)
    }

    /// The held particles are the latest ones pushed, with none left out
    /// between them (true until `retain` removes some).
    pub open spec fn holds_latest(&self) -> bool {
        self.items() == self.pushed().subrange(self.total() - self.items().len(), self.total() as int)
    }

    /// An empty buffer for `capacity` particles, every kind enabled.
    pub fn new(capacity: usize) -> (r: Self)
        ensures
            r.wf(),
            r.holds_latest(),
            r.items() == Seq::<DirectedParticleInstance>::empty(),
            r.pushed() == Seq::<DirectedParticleInstance>::empty(),
            r.total() == 0,
            r.spec_capacity() == capacity,
            forall|t: nat| t < 256 ==> #[trigger] mask_bit(r.mask(), t),
    {
        let r = DirectedEventBuffer {
            particles: VecDeque::new(),
            capacity,
            enabled_types: [u64::MAX; 4],
            total_pushed: 0,
            history: Ghost(Seq::empty()),
        };
        proof {
            assert forall|t: nat| t < 256 implies #[trigger] mask_bit(r.enabled_types, t) by {
                lemma_full_and_empty((t % 64) as u64);
            }
            assert(r.particles@ =~= r.history@.subrange(0, 0));
        }
        r
    }

    /// Appends a particle, first dropping the oldest one when the buffer is
    /// full.
    pub fn push(&mut self, particle: DirectedParticleInstance)
        requires
            old(self).wf(),
            old(self).total() < u64::MAX,
        ensures
            final(self).wf(),
            final(self).items() == items_after_push(old(self).items(), particle, old(self).spec_capacity()),
            final(self).pushed() == old(self).pushed().push(particle),
            final(self).total() == old(self).total() + 1,
            final(self).spec_capacity() == old(self).spec_capacity(),
            final(self).mask() == old(self).mask(),
            old(self).holds_latest() ==> final(self).holds_latest(),
    {
        let ghost was_latest = self.holds_latest();
        if self.particles.len() >= self.capacity {
            self.particles.pop_front();
        }
        self.particles.push_back(particle);
        self.total_pushed = self.total_pushed + 1;
        self.history = Ghost(self.history@.push(particle));
        proof {
            if was_latest {
                assert(self.particles@ =~= self.history@.subrange(
                    self.total_pushed - self.particles@.len(),
                    self.total_pushed as int,
                ));
            }
        }
    }

    /// For incremental upload since `cursor` (a count of particles pushed):
    /// the held particles, the new cursor (everything pushed so far), and how
    /// many held particles to skip. A cursor older than the oldest held
    /// particle skips none.
    pub fn get_new_since(&self, cursor: u64) -> (r: (&VecDeque<DirectedParticleInstance>, u64, usize))
        requires
            self.wf(),
        ensures
            r.0@ == self.items(),
            r.1 == self.total(),
            r.2 == (if cursor >= self.total() - self.items().len() {
                (cursor - (self.total() - self.items().len())) as usize
            } else {
                0usize
            }),
    {
        let oldest = self.total_pushed - self.particles.len() as u64;
        let skip = if cursor >= oldest {
            (cursor - oldest) as usize
        } else {
            0
        };
        (&self.particles, self.total_pushed, skip)
    }

    /// Enables or disables one event kind.
    pub fn set_type_enabled(&mut self, event_type: u8, enabled: bool)
        requires
            old(self).wf(),
        ensures
            final(self).wf(),
            final(self).items() == old(self).items(),
            final(self).pushed() == old(self).pushed(),
            final(self).total() == old(self).total(),
            final(self).spec_capacity() == old(self).spec_capacity(),
            forall|t: nat| t < 256 ==> #[trigger] mask_bit(final(self).mask(), t) == if t == event_type {
                enabled
            } else {
                mask_bit(old(self).mask(), t)
            },
    {
        let idx = (event_type / 64) as usize;
        let bit = (event_type % 64) as u64;
        let ghost before = self.enabled_types;
        if enabled {
            self.enabled_types[idx] = self.enabled_types[idx] | (1u64 << bit);
        } else {
            self.enabled_types[idx] = self.enabled_types[idx] & !(1u64 << bit);
        }
        proof {
            assert forall|t: nat| t < 256 implies #[trigger] mask_bit(self.enabled_types, t) == if t == event_type {
                enabled
            } else {
                mask_bit(before, t)
            } by {
                if t / 64 == idx as nat {
                    if enabled {
                        lemma_set_bit(before[idx as int], bit, (t % 64) as u64);
                    } else {
                        lemma_clear_bit(before[idx as int], bit, (t % 64) as u64);
                    }
                    assert((t % 64 == bit as nat) <==> t == event_type as nat);
                } else {
                    assert(self.enabled_types[(t / 64) as int] == before[(t / 64) as int]);
                }
            }
        }
    }

    /// Whether an event kind is enabled.
    pub fn is_type_enabled(&self, event_type: u8) -> (r: bool)
        ensures
            r == mask_bit(self.mask(), event_type as nat),
    {
        let idx = (event_type / 64) as usize;
        let bit = (event_type % 64) as u64;
        let w = self.enabled_types[idx];
        let r = (w & (1u64 << bit)) != 0;
        proof {
            assert(((w & (1u64 << bit)) != 0u64) <==> ((w >> bit) & 1u64 == 1u64)) by (bit_vector)
                requires
                    bit < 64,
            ;
        }
        r
    }

    /// The enabled-kinds mask.
    pub fn enabled_types(&self) -> (r: &[u64; 4])
        ensures
            *r == self.mask(),
    {
        &self.enabled_types
    }

    /// Replaces the enabled-kinds mask.
    pub fn set_enabled_types(&mut self, enabled: [u64; 4])
        requires
            old(self).wf(),
        ensures
            final(self).wf(),
            final(self).mask() == enabled,
            final(self).items() == old(self).items(),
            final(self).pushed() == old(self).pushed(),
            final(self).total() == old(self).total(),
            final(self).spec_capacity() == old(self).spec_capacity(),
    {
        self.enabled_types = enabled;
    }

    /// Held particles shown at `now_ms`, oldest first.
    pub fn get_active_particles(&self, now_ms: u64, max_age_ms: u64) -> (r: Vec<DirectedParticleInstance>)
        ensures
            r@ == self.items().filter(active_at(now_ms, max_age_ms, self.mask())),
    {
        let ghost pred = active_at(now_ms, max_age_ms, self.mask());
        let mut out: Vec<DirectedParticleInstance> = Vec::new();
        let mut i: usize = 0;
        while i < self.particles.len()
            invariant
                i <= self.particles@.len(),
                pred == active_at(now_ms, max_age_ms, self.mask()),
                out@ == self.particles@.take(i as int).filter(pred),
            decreases self.particles@.len() - i,
        {
            let p = self.particles[i];
            proof {
                lemma_filter_push(self.particles@.take(i as int), p, pred);
                assert(self.particles@.take(i + 1) =~= self.particles@.take(i as int).push(p));
            }
            let recent = now_ms <= p.birth_ms || now_ms - p.birth_ms <= max_age_ms;
            if recent && self.is_type_enabled(p.event_type) {
                out.push(p);
            }
            i = i + 1;
        }
        assert(self.particles@.take(self.particles@.len() as int) =~= self.particles@);
        out
    }

    /// Number of held particles shown at `now_ms`.
    pub fn active_count(&self, now_ms: u64, max_age_ms: u64) -> (r: usize)
        ensures
            r == self.items().filter(active_at(now_ms, max_age_ms, self.mask())).len(),
    {
        let ghost pred = active_at(now_ms, max_age_ms, self.mask());
        let mut n: usize = 0;
        let mut i: usize = 0;
        while i < self.particles.len()
            invariant
                i <= self.particles@.len(),
                pred == active_at(now_ms, max_age_ms, self.mask()),
                n == self.particles@.take(i as int).filter(pred).len(),
                n <= i,
            decreases self.particles@.len() - i,
        {
            let p = self.particles[i];
            proof {
                lemma_filter_push(self.particles@.take(i as int), p, pred);
                assert(self.particles@.take(i + 1) =~= self.particles@.take(i as int).push(p));
            }
            let recent = now_ms <= p.birth_ms || now_ms - p.birth_ms <= max_age_ms;
            if recent && self.is_type_enabled(p.event_type) {
                n = n + 1;
            }
            i = i + 1;
        }
        assert(self.particles@.take(self.particles@.len() as int) =~= self.particles@);
        n
    }

    /// Every held particle, oldest first, unfiltered.
    pub fn all_particles(&self) -> (r: &VecDeque<DirectedParticleInstance>)
        ensures
            r@ == self.items(),
    {
        &self.particles
    }

    /// Capacity the buffer was made with.
    pub fn capacity(&self) -> (r: usize)
        ensures
            r == self.spec_capacity(),
    {
        self.capacity
    }

    /// Number of held particles.
    pub fn len(&self) -> (r: usize)
        ensures
            r == self.items().len(),
    {
        self.particles.len()
    }

    /// Whether no particle is held.
    pub fn is_empty(&self) -> (r: bool)
        ensures
            r == (self.items().len() == 0),
    {
        self.particles.len() == 0
    }

    /// Drops every held particle; the count of pushed particles is kept.
    pub fn clear(&mut self)
        requires
            old(self).wf(),
        ensures
            final(self).wf(),
            final(self).holds_latest(),
            final(self).items() == Seq::<DirectedParticleInstance>::empty(),
            final(self).pushed() == old(self).pushed(),
            final(self).total() == old(self).total(),
            final(self).spec_capacity() == old(self).spec_capacity(),
            final(self).mask() == old(self).mask(),
    {
        self.particles.clear();
        assert(self.particles@ =~= self.history@.subrange(self.total_pushed as int, self.total_pushed as int));
    }

    /// Keeps only the held particles for which `keep` answers true, in their
    /// order; what was pushed, the capacity and the mask stay. `kept[i]` is
    /// the answer `keep` gave for the `i`-th held particle.
    pub fn retain<F: Fn(&DirectedParticleInstance) -> bool>(&mut self, keep: F)
        requires
            old(self).wf(),
            forall|p: DirectedParticleInstance| #[trigger] keep.requires((&p,)),
        ensures
            final(self).wf(),
            exists|kept: Seq<bool>| #![trigger select(old(self).items(), kept)] {
                &&& kept.len() == old(self).items().len()
                &&& forall|i: int| 0 <= i < kept.len() ==> #[trigger] keep.ensures((&old(self).items()[i],), kept[i])
                &&& final(self).items() == select(old(self).items(), kept)
            },
            final(self).pushed() == old(self).pushed(),
            final(self).total() == old(self).total(),
            final(self).spec_capacity() == old(self).spec_capacity(),
            final(self).mask() == old(self).mask(),
    {
        let ghost held = self.particles@;
        let ghost mut kept: Seq<bool> = Seq::empty();
        let mut out: VecDeque<DirectedParticleInstance> = VecDeque::new();
        let mut i: usize = 0;
        while i < self.particles.len()
            invariant
                i <= held.len(),
                self.particles@ == held,
                forall|p: DirectedParticleInstance| #[trigger] keep.requires((&p,)),
                kept.len() == i,
                forall|j: int| 0 <= j < i ==> #[trigger] keep.ensures((&held[j],), kept[j]),
                out@ == select(held.take(i as int), kept),
                out@.len() <= i,
            decreases held.len() - i,
        {
            let p = self.particles[i];
            let b = keep(&p);
            proof {
                let k0 = kept;
                kept = kept.push(b);
                assert(held.take(i + 1).drop_last() =~= held.take(i as int));
                assert(kept.drop_last() =~= k0);
                assert(held.take(i + 1).last() == p);
            }
            if b {
                out.push_back(p);
            }
            i = i + 1;
        }
        proof {
            assert(held.take(held.len() as int) =~= held);
        }
        self.particles = out;
        proof {
            assert(self.particles@ == select(held, kept));
            assert(held == old(self).items());
            assert(self.items() == self.particles@);
            assert(exists|k: Seq<bool>| #![trigger select(held, k)] {
                &&& k.len() == held.len()
                &&& forall|j: int| 0 <= j < k.len() ==> #[trigger] keep.ensures((&held[j],), k[j])
                &&& self.particles@ == select(held, k)
            });
        }
    }
}

impl Default for DirectedEventBuffer {
    fn default() -> (r: Self)
        ensures
            r.wf(),
            r.holds_latest(),
            r.items() == Seq::<DirectedParticleInstance>::empty(),
            r.pushed() == Seq::<DirectedParticleInstance>::empty(),
            r.total() == 0,
            r.spec_capacity() == 100_000,
            forall|t: nat| t < 256 ==> #[trigger] mask_bit(r.mask(), t),
    {
        Self::new(100_000)
    }
}

/// The buffer holds exactly the most recently pushed particles, and after an
/// upload cursor `c` that is still in the buffer, the particles past the skip
/// are exactly the ones pushed since `c`.
pub proof fn law_new_since_are_latest(buf: DirectedEventBuffer, cursor: u64)
    requires
        buf.wf(),
        buf.holds_latest(),
        buf.total() - buf.items().len() <= cursor <= buf.total(),
    ensures
        buf.items().subrange(cursor - (buf.total() - buf.items().len()), buf.items().len() as int)
            == buf.pushed().subrange(cursor as int, buf.total() as int),
        buf.items() == buf.pushed().subrange(buf.total() - buf.items().len(), buf.total() as int),
{
    let oldest = buf.total() - buf.items().len();
    assert(buf.items().subrange(cursor - oldest, buf.items().len() as int)
        =~= buf.pushed().subrange(cursor as int, buf.total() as int));
}

/// A push keeps the buffer within its holding limit, and a buffer that was
/// full stays full.
pub proof fn law_push_bounded(buf: DirectedEventBuffer)
    requires
        buf.wf(),
    ensures
        buf.items().len() <= holding_limit(buf.spec_capacity()),
{
}

} // verus!
