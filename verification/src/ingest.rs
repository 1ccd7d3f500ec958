//! Applying decoded telemetry messages to the dashboard's stores.

use vstd::prelude::*;
use crate::events::{Event, EventType, PeerId, travel_duration_ms};
use crate::bits::mask_bit;
use crate::catalog::{is_inbound_kind, is_outbound_kind, law_direction_lists_match_directed_peer};
use crate::store::{BestBlockData, BucketsView, EventStore, StoredEvent, TimeSeriesData, ids_after_push, views_after_push};
use crate::vring::{items_after_push, DirectedEventBuffer, DirectedParticleInstance, PulseEvent};

verus! {

/// Lower-case hex digit for a value below 16.
pub open spec fn hex_digit(n: int) -> char {
    if n < 10 { (48 + n) as char } else { (87 + n) as char }
}

/// Lower-case hex text of some bytes, two digits per byte, high nibble first.
pub open spec fn lower_hex(bytes: Seq<u8>) -> Seq<char>
    decreases bytes.len(),
{
    if bytes.len() == 0 {
        Seq::empty()
    } else {
        lower_hex(bytes.drop_last()) + seq![
            hex_digit(bytes.last() as int / 16),
            hex_digit(bytes.last() as int % 16),
        ]
    }
}

/// `hex::encode`: the lower-case hex text of the bytes, two digits per byte,
/// high nibble first.
#[verifier::external_body]
fn hex_encode(bytes: &PeerId) -> (r: String)
    ensures
        r@ == lower_hex(bytes@),
{
    hex::encode(bytes)
}

/// Node id under which a peer reports its own events: the hex text of its
/// peer id.
pub fn peer_node_id(peer_id: &PeerId) -> (r: String)
    ensures
        r@ == lower_hex(peer_id@),
{
    hex_encode(peer_id)
}

/// Kinds shown as a collapsing pulse at their node instead of a particle.
pub open spec fn is_pulse_kind(t: EventType) -> bool {
    t == EventType::Authoring || t == EventType::WorkPackageSubmission
}

/// Path deviation of a directed particle, from the first four bytes of the
/// peer id: in steps of 1/255 from -255 to 255.
pub open spec fn curve_of(peer: PeerId) -> i16 {
    (2 * ((peer[0] ^ peer[1] ^ peer[2] ^ peer[3]) as int) - 255) as i16
}

/// The particle an event adds to the ring, given the event store after the
/// event was stored: a directed event travels between its node and its peer
/// (when both are known), other events make a one-second radial particle at
/// their node, and pulse kinds make none.
pub open spec fn particle_for(store: EventStore, node_id: Seq<char>, e: Event, now: u64) -> Option<DirectedParticleInstance> {
    let code = e.kind().spec_code();
    match e.peer_direction() {
        Some((peer, outbound)) => match (store.position_of_node(lower_hex(peer@)), store.position_of_node(node_id)) {
            (Some(pi), Some(ni)) => Some(
                DirectedParticleInstance {
                    source_index: if outbound { ni } else { pi },
                    target_index: if outbound { pi } else { ni },
                    birth_ms: now,
                    travel_duration_ms: travel_duration_ms(e.kind()),
                    event_type: code,
                    curve: curve_of(peer),
                },
            ),
            _ => None,
        },
        None => if is_pulse_kind(e.kind()) {
            None
        } else {
            match store.position_of_node(node_id) {
                Some(ni) => Some(
                    DirectedParticleInstance {
                        source_index: ni,
                        target_index: ni,
                        birth_ms: now,
                        travel_duration_ms: 1000,
                        event_type: code,
                        curve: 0,
                    },
                ),
                None => None,
            }
        },
    }
}

/// Everything the dashboard keeps from the telemetry stream.
pub struct SharedData {
    pub time_series: TimeSeriesData<u32>,
    pub blocks: BestBlockData,
    pub events: EventStore,
    pub directed_buffer: DirectedEventBuffer,
    pub pulse_events: Vec<PulseEvent>,
}

/// A decoded telemetry message: its type, and for event messages the
/// reporting node, the server's event id and the event.
pub struct Message {
    pub msg_type: String,
    pub node_id: Option<String>,
    pub event_id: Option<u64>,
    pub event: Option<Event>,
}

/// What a processed event message yields for diagnostics.
#[derive(Clone, Copy, Debug)]
pub struct ParseResult {
    pub event_id: Option<u64>,
}

/// Peer count of a status event, for the time series.
pub open spec fn status_peers(e: Event) -> Option<u32> {
    match e {
        Event::Status { num_peers, .. } => Some(num_peers),
        _ => None,
    }
}

/// Slot of a best-block event.
pub open spec fn best_slot(e: Event) -> Option<u64> {
    match e {
        Event::BestBlockChanged { slot, .. } => Some(slot as u64),
        _ => None,
    }
}

/// Slot of a finalized-block event.
pub open spec fn finalized_slot(e: Event) -> Option<u64> {
    match e {
        Event::FinalizedBlockChanged { slot, .. } => Some(slot as u64),
        _ => None,
    }
}

/// What storing `event` from `node_id` at app time `now_ms` does to the
/// stores: the event joins the event store; a pulse kind queues a pulse at the
/// node's position; the ring gets the particle `particle_for` gives, if any;
/// a status event appends its peer count to the node's series; best- and
/// finalized-block events set the node's block slot. The event store's limits
/// and the particle buffer's capacity and mask stay.
pub open spec fn ingested(before: SharedData, after: SharedData, node_id: Seq<char>, event: Event, now_ms: u64) -> bool {
    &&& after.events.node_ids() == ids_after_push(before.events.node_ids(), node_id)
    &&& after.events.node_views() == views_after_push(
        before.events.node_ids(),
        before.events.node_views(),
        node_id,
        StoredEvent { timestamp: now_ms, event },
        before.events.max(),
    )
    &&& after.events.max() == before.events.max()
    &&& after.events.retention_ms() == before.events.retention_ms()
    &&& after.pulse_events@ == if is_pulse_kind(event.kind()) {
        before.pulse_events@.push(
            PulseEvent {
                node_index: after.events.position_of_node(node_id).unwrap(),
                event_type: event.kind(),
                birth_ms: now_ms,
            },
        )
    } else {
        before.pulse_events@
    }
    &&& match particle_for(after.events, node_id, event, now_ms) {
        Some(p) => {
            &&& after.directed_buffer.items() == items_after_push(
                before.directed_buffer.items(),
                p,
                before.directed_buffer.spec_capacity(),
            )
            &&& after.directed_buffer.pushed() == before.directed_buffer.pushed().push(p)
            &&& after.directed_buffer.total() == before.directed_buffer.total() + 1
        },
        None => {
            &&& after.directed_buffer.items() == before.directed_buffer.items()
            &&& after.directed_buffer.pushed() == before.directed_buffer.pushed()
            &&& after.directed_buffer.total() == before.directed_buffer.total()
        },
    }
    &&& before.directed_buffer.holds_latest() ==> after.directed_buffer.holds_latest()
    &&& after.directed_buffer.spec_capacity() == before.directed_buffer.spec_capacity()
    &&& after.directed_buffer.mask() == before.directed_buffer.mask()
    &&& after.time_series.nodes() == match status_peers(event) {
        Some(_) => if before.time_series.nodes().contains(node_id) {
            before.time_series.nodes()
        } else {
            before.time_series.nodes().push(node_id)
        },
        None => before.time_series.nodes(),
    }
    &&& match status_peers(event) {
        Some(n) => forall|s: int| 0 <= s < before.time_series.points().len() ==> #[trigger] after.time_series.points()[s] == if Some(s as usize) == after.time_series.slot_of(node_id) {
            crate::store::appended(before.time_series.points()[s], n, before.time_series.max())
        } else {
            before.time_series.points()[s]
        },
        None => after.time_series.points() == before.time_series.points(),
    }
    &&& after.blocks.nodes() == if best_slot(event) is Some || finalized_slot(event) is Some {
        if before.blocks.nodes().contains(node_id) {
            before.blocks.nodes()
        } else {
            before.blocks.nodes().push(node_id)
        }
    } else {
        before.blocks.nodes()
    }
    &&& (best_slot(event) is Some || finalized_slot(event) is Some) ==> {
        &&& after.blocks.slot_of(node_id) is Some
        &&& after.blocks.slot_of(node_id).unwrap() < before.blocks.best().len()
    }
    &&& after.blocks.best() == match best_slot(event) {
        Some(sl) => before.blocks.best().update(after.blocks.slot_of(node_id).unwrap() as int, sl),
        None => before.blocks.best(),
    }
    &&& after.blocks.finalized() == match finalized_slot(event) {
        Some(sl) => before.blocks.finalized().update(after.blocks.slot_of(node_id).unwrap() as int, sl),
        None => before.blocks.finalized(),
    }
}

impl SharedData {
    /// The stores can take another event.
    pub open spec fn wf(&self) -> bool {
        &&& self.time_series.wf()
        &&& self.time_series.points().len() > 0
        &&& self.time_series.max() > 0
        &&& self.blocks.wf()
        &&& self.blocks.best().len() > 0
        &&& self.events.wf()
        &&& self.directed_buffer.wf()
    }

    /// Empty stores: `num_validators` series of `max_points` points and block
    /// slots, `max_events_per_node` events per kind at each node kept
    /// `retention_ms`, and a particle buffer of `particle_capacity`.
    pub fn new(
        num_validators: usize,
        max_points: usize,
        max_events_per_node: usize,
        retention_ms: u64,
        particle_capacity: usize,
    ) -> (r: Self)
        requires
            num_validators > 0,
            max_points > 0,
        ensures
            r.wf(),
            r.time_series.points().len() == num_validators,
            forall|i: int| 0 <= i < num_validators ==> (#[trigger] r.time_series.points()[i]).len() == 0,
            r.time_series.max() == max_points,
            r.time_series.nodes() == Seq::<Seq<char>>::empty(),
            r.blocks.best() == Seq::new(num_validators as nat, |i: int| 0u64),
            r.blocks.finalized() == Seq::new(num_validators as nat, |i: int| 0u64),
            r.blocks.nodes() == Seq::<Seq<char>>::empty(),
            r.events.max() == max_events_per_node,
            r.events.retention_ms() == retention_ms,
            r.events.node_ids() == Seq::<Seq<char>>::empty(),
            r.events.node_views() == Seq::<(u16, BucketsView)>::empty(),
            r.directed_buffer.spec_capacity() == particle_capacity,
            r.directed_buffer.items() == Seq::<DirectedParticleInstance>::empty(),
            r.directed_buffer.pushed() == Seq::<DirectedParticleInstance>::empty(),
            r.directed_buffer.total() == 0,
            r.directed_buffer.holds_latest(),
            forall|t: nat| t < 256 ==> #[trigger] mask_bit(r.directed_buffer.mask(), t),
            r.pulse_events@ == Seq::<PulseEvent>::empty(),
    {
        SharedData {
            time_series: TimeSeriesData::new(num_validators, max_points),
            blocks: BestBlockData::new(num_validators),
            events: EventStore::new(max_events_per_node, retention_ms),
            directed_buffer: DirectedEventBuffer::new(particle_capacity),
            pulse_events: Vec::new(),
        }
    }

    /// Stores an event reported by `node_id` at app time `now_ms`: into the
    /// event store; as a pulse (authoring, work-package submission) or a ring
    /// particle; and, for status, best-block and finalized-block events, into
    /// the peer-count series and block tables.
    pub fn ingest(&mut self, node_id: &str, event: Event, now_ms: u64)
        requires
            old(self).wf(),
            old(self).directed_buffer.total() < u64::MAX,
        ensures
            final(self).wf(),
            ingested(*old(self), *final(self), node_id@, event, now_ms),
    {
        let ghost ev = event;
        let et = event.event_type();
        let code = et.code();
        let travel = event.travel_duration();
        let directed: Option<(PeerId, bool)> = match event.directed_peer() {
            Some(d) => Some((*d.peer_id, d.is_outbound)),
            None => None,
        };
        let peers: Option<u32> = match &event {
            Event::Status { num_peers, .. } => Some(*num_peers),
            _ => None,
        };
        let best: Option<u64> = match &event {
            Event::BestBlockChanged { slot, .. } => Some(*slot as u64),
            _ => None,
        };
        let finalized: Option<u64> = match &event {
            Event::FinalizedBlockChanged { slot, .. } => Some(*slot as u64),
            _ => None,
        };
        let pulse_kind = et == EventType::Authoring || et == EventType::WorkPackageSubmission;
        self.events.push(node_id, event, now_ms);
        if pulse_kind {
            match self.events.node_index(node_id) {
                Some(node_index) => {
                    self.pulse_events.push(PulseEvent { node_index, event_type: et, birth_ms: now_ms });
                }
                None => {
                    proof {
                        assert(self.events.node_ids().contains(node_id@)) by {
                            let ids = self.events.node_ids();
                            if !old(self).events.node_ids().contains(node_id@) {
                                assert(ids[ids.len() - 1] == node_id@);
                            }
                        }
                    }
                }
            }
        }
        match directed {
            Some((peer, outbound)) => {
                let peer_id = peer_node_id(&peer);
                match self.events.node_index(peer_id.as_str()) {
                    Some(peer_index) => {
                        match self.events.node_index(node_id) {
                            Some(node_index) => {
                                let (source, target) = if outbound {
                                    (node_index, peer_index)
                                } else {
                                    (peer_index, node_index)
                                };
                                let x = peer[0] ^ peer[1] ^ peer[2] ^ peer[3];
                                let curve = 2 * (x as i16) - 255;
                                let particle = DirectedParticleInstance::new(source, target, now_ms, travel, code, curve);
                                self.directed_buffer.push(particle);
                            }
                            None => {}
                        }
                    }
                    None => {}
                }
            }
            None => {
                if !pulse_kind {
                    match self.events.node_index(node_id) {
                        Some(node_index) => {
                            let particle = DirectedParticleInstance::new(node_index, node_index, now_ms, 1000, code, 0);
                            self.directed_buffer.push(particle);
                        }
                        None => {}
                    }
                }
            }
        }
        match peers {
            Some(n) => {
                self.time_series.push(node_id, n);
            }
            None => {}
        }
        match best {
            Some(sl) => {
                self.blocks.set_best(node_id, sl);
            }
            None => {}
        }
        match finalized {
            Some(sl) => {
                self.blocks.set_finalized(node_id, sl);
            }
            None => {}
        }
    }

    /// Processes a decoded message: event messages with a node id and an
    /// event are ingested and yield the server's event id; anything else is
    /// ignored and yields `None`.
    pub fn handle_message(&mut self, msg: Message, now_ms: u64) -> (r: Option<ParseResult>)
        requires
            old(self).wf(),
            old(self).directed_buffer.total() < u64::MAX,
        ensures
            final(self).wf(),
            r is Some <==> (msg.msg_type@ == "event"@ && msg.node_id is Some && msg.event is Some),
            r is Some ==> r.unwrap().event_id == msg.event_id,
            r is None ==> *final(self) == *old(self),
            r is Some ==> ingested(*old(self), *final(self), msg.node_id.unwrap()@, msg.event.unwrap(), now_ms),
    {
        let kind = String::from_str("event");
        if msg.msg_type != kind {
            return None;
        }
        match msg.node_id {
            Some(node_id) => match msg.event {
                Some(event) => {
                    self.ingest(node_id.as_str(), event, now_ms);
                    Some(ParseResult { event_id: msg.event_id })
                }
                None => None,
            },
            None => None,
        }
    }
}

/// A ring particle for a directed event travels from the party that sent to
/// the one that received: for inbound kinds (the reporting node received)
/// from the peer's position to the reporting node's, for outbound kinds from
/// the reporting node's to the peer's, and for the others as the event's
/// direction says. Non-directed events give a radial particle at the
/// reporting node.
pub proof fn law_particle_travels_from_sender(store: EventStore, node_id: Seq<char>, e: Event, now: u64)
    requires
        particle_for(store, node_id, e, now) is Some,
    ensures
        ({
            let p = particle_for(store, node_id, e, now).unwrap();
            let me = store.position_of_node(node_id);
            match e.peer_direction() {
                Some((peer, outbound)) => {
                    let them = store.position_of_node(lower_hex(peer@));
                    &&& me is Some && them is Some
                    &&& is_inbound_kind(e.kind()) ==> p.source_index == them.unwrap() && p.target_index == me.unwrap()
                    &&& is_outbound_kind(e.kind()) ==> p.source_index == me.unwrap() && p.target_index == them.unwrap()
                    &&& outbound ==> p.source_index == me.unwrap() && p.target_index == them.unwrap()
                    &&& !outbound ==> p.source_index == them.unwrap() && p.target_index == me.unwrap()
                },
                None => p.source_index == me.unwrap() && p.target_index == me.unwrap(),
            }
        }),
{
    law_direction_lists_match_directed_peer(e);
}

} // verus!
