use jam_orbit::diagnostics::{count_scale, CountScale, DropTracker};
use jam_orbit::events::{Event, EventType};
use jam_orbit::histogram::EventHistogramData;
use jam_orbit::ingest::{peer_node_id, Message, ParseResult, SharedData};
use jam_orbit::ui::ActiveTab;
use jam_orbit::ws_state::WsState;

fn make_test_stores() -> SharedData {
    SharedData::new(10, 100, 100, 60_000, 100_000)
}

fn status(num_peers: u32) -> Event {
    Event::Status {
        timestamp: 12345,
        num_peers,
        num_val_peers: 2,
        num_sync_peers: 1,
        num_guarantees: vec![],
        num_shards: 0,
        shards_size: 0,
        num_preimages: 0,
        preimages_size: 0,
    }
}

fn event_message(node_id: &str, event: Event) -> Message {
    Message { msg_type: "event".to_string(), node_id: Some(node_id.to_string()), event_id: None, event: Some(event) }
}

#[test]
fn test_parse_status_event() {
    let mut data = make_test_stores();
    let result = data.handle_message(event_message("abc123", status(42)), 0);
    assert!(result.is_some());
    assert_eq!(data.time_series.validator_count(), 1);
    assert_eq!(data.events.node_count(), 1);
    assert_eq!(data.time_series.latest_value("abc123"), Some(42));
}

#[test]
fn test_parse_best_block_event() {
    let mut data = make_test_stores();
    let event = Event::BestBlockChanged { timestamp: 12345, slot: 5662737, hash: [1u8; 32] };
    let result = data.handle_message(event_message("abc123", event), 0);
    assert!(result.is_some());
    assert_eq!(data.blocks.highest_slot(), Some(5662737));
    assert_eq!(data.events.node_count(), 1);
}

#[test]
fn test_ignore_non_event() {
    let mut data = make_test_stores();
    let msg = Message { msg_type: "connected".to_string(), node_id: None, event_id: None, event: None };
    let result = data.handle_message(msg, 0);
    assert!(result.is_none());
    assert_eq!(data.events.node_count(), 0);
}

#[test]
fn event_message_without_event_is_ignored() {
    let mut data = make_test_stores();
    let msg = Message { msg_type: "event".to_string(), node_id: Some("n".to_string()), event_id: Some(3), event: None };
    assert!(data.handle_message(msg, 0).is_none());
    let msg = Message { msg_type: "event".to_string(), node_id: None, event_id: Some(3), event: Some(status(1)) };
    assert!(data.handle_message(msg, 0).is_none());
    assert_eq!(data.events.node_count(), 0);
}

#[test]
fn test_parse_directed_event() {
    let mut data = make_test_stores();
    let recipient: [u8; 32] = [
        1, 2, 3, 4, 5, 6, 7, 8, 9, 10, 11, 12, 13, 14, 15, 16, 17, 18, 19, 20, 21, 22, 23, 24, 25, 26, 27, 28, 29, 30,
        31, 32,
    ];
    let recipient_node_id = peer_node_id(&recipient);
    assert_eq!(recipient_node_id, "0102030405060708090a0b0c0d0e0f101112131415161718191a1b1c1d1e1f20");
    // Seed the store so the recipient has a node index.
    data.handle_message(event_message(&recipient_node_id, status(1)), 0);

    // SendingGuarantee is a directed event (outbound to recipient peer)
    let event = Event::SendingGuarantee { timestamp: 12345, built_id: 1, recipient };
    let msg = Message {
        msg_type: "event".to_string(),
        node_id: Some("node_abc".to_string()),
        event_id: Some(7),
        event: Some(event),
    };
    let result = data.handle_message(msg, 1_500);
    assert_eq!(result.map(|r| r.event_id), Some(Some(7)));

    // 2 particles: 1 radial from the seeding Status + 1 directed from SendingGuarantee
    assert_eq!(data.directed_buffer.len(), 2);

    let particles = data.directed_buffer.get_active_particles(2_000, 5_000);
    let p = particles.iter().find(|p| p.event_type == 106).expect("directed particle");
    assert_eq!(p.source_index, 1); // node_abc = second node registered (index 1)
    assert_eq!(p.target_index, 0); // recipient = first node registered (index 0)
    assert_eq!(p.birth_ms, 1_500);
    assert_eq!(p.travel_duration_ms, 2_000);
    assert_eq!(p.curve, 2 * (1 ^ 2 ^ 3 ^ 4) - 255);

    let r = particles.iter().find(|p| p.event_type == 10).expect("radial particle");
    assert_eq!(r.source_index, r.target_index);
    assert_eq!(r.travel_duration_ms, 1_000);
    assert_eq!(r.curve, 0);
}

#[test]
fn directed_event_to_unknown_peer_makes_no_particle() {
    let mut data = make_test_stores();
    let event = Event::ReceivingGuarantee { timestamp: 0, sender: [9u8; 32] };
    data.handle_message(event_message("n", event), 10);
    assert_eq!(data.directed_buffer.len(), 0);
    assert_eq!(data.events.node_count(), 1);
}

#[test]
fn pulse_kinds_emit_a_pulse_and_no_particle() {
    let mut data = make_test_stores();
    let event = Event::Authoring { timestamp: 0, slot: 1, parent: [0u8; 32] };
    data.handle_message(event_message("n", event), 42);
    assert_eq!(data.directed_buffer.len(), 0);
    assert_eq!(data.pulse_events.len(), 1);
    assert_eq!(data.pulse_events[0].node_index, 0);
    assert_eq!(data.pulse_events[0].event_type, EventType::Authoring);
    assert_eq!(data.pulse_events[0].birth_ms, 42);
}

#[test]
fn finalized_event_updates_finalized_table() {
    let mut data = make_test_stores();
    let event = Event::FinalizedBlockChanged { timestamp: 0, slot: 77, hash: [0u8; 32] };
    data.handle_message(event_message("n", event), 0);
    assert_eq!(data.blocks.highest_finalized(), Some(77));
    assert_eq!(data.blocks.highest_slot(), None);
}

#[test]
fn drop_tracker_counts_id_gaps() {
    let mut t = DropTracker::new();
    t.track(&ParseResult { event_id: Some(10) });
    t.track(&ParseResult { event_id: Some(11) });
    assert_eq!(t.dropped_total, 0);
    t.track(&ParseResult { event_id: Some(15) });
    assert_eq!(t.dropped_total, 3);
    t.track(&ParseResult { event_id: None });
    t.track(&ParseResult { event_id: Some(12) });
    assert_eq!(t.dropped_total, 3);
    assert_eq!(t.events_counter, 5);
    assert_eq!(t.take_second(), (5, 3));
    assert_eq!(t.events_counter, 0);
    assert_eq!(t.dropped_counter, 0);
    assert_eq!(t.events_total, 5);
    assert_eq!(t.last_event_id, Some(12));
}

#[test]
fn histogram_counts_hits() {
    let mut h = EventHistogramData::new(3);
    h.tick(&[true, false, true], &[false, false, true]);
    h.tick(&[true, false, false], &[true, false, false]);
    assert_eq!(h.events_a, vec![2, 0, 1]);
    assert_eq!(h.events_b, vec![1, 0, 1]);
}

#[test]
fn ws_state_and_tab() {
    assert!(WsState::Connected.is_connected());
    assert!(!WsState::Connecting.is_connected());
    assert!(!WsState::Error("x".to_string()).is_connected());
    assert!(ActiveTab::default() == ActiveTab::Ring);
}

#[test]
fn count_scale_thresholds() {
    assert_eq!(count_scale(999), CountScale::Units);
    assert_eq!(count_scale(1234), CountScale::Thousands);
    assert_eq!(count_scale(999_999), CountScale::Thousands);
    assert_eq!(count_scale(5_000_000), CountScale::Millions);
    assert_eq!(CountScale::Thousands.divisor(), 1_000);
    assert_eq!(CountScale::Millions.suffix(), "M");
    assert_eq!(CountScale::Units.suffix(), "");
}
