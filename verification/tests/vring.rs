use jam_orbit::palette::{ColorSchema, FilterBitfield};
use jam_orbit::upload::{InstanceRing, RING_BUFFER_CAPACITY, RING_NUM_BUFFERS};
use jam_orbit::events::EventType;
use jam_orbit::vring::{
    retain_live_pulses, DirectedEventBuffer, DirectedParticleInstance, PeerRegistry, PulseEvent, PULSE_DURATION_MS,
};

#[test]
fn test_peer_registry() {
    let mut registry = PeerRegistry::new(10);

    let peer1 = [1u8; 32];
    let peer2 = [2u8; 32];

    // First insert
    assert_eq!(registry.get_or_insert(&peer1), Some(0));
    assert_eq!(registry.get_or_insert(&peer2), Some(1));

    // Repeated lookup
    assert_eq!(registry.get_or_insert(&peer1), Some(0));
    assert_eq!(registry.get(&peer1), Some(0));
    assert_eq!(registry.get(&peer2), Some(1));

    // Unknown peer
    let peer3 = [3u8; 32];
    assert_eq!(registry.get(&peer3), None);
}

#[test]
fn peer_registry_full_and_clear() {
    let mut registry = PeerRegistry::new(2);
    assert!(registry.is_empty());
    assert_eq!(registry.get_or_insert(&[1u8; 32]), Some(0));
    assert_eq!(registry.get_or_insert(&[2u8; 32]), Some(1));
    assert_eq!(registry.get_or_insert(&[3u8; 32]), None);
    assert_eq!(registry.len(), 2);
    registry.clear();
    assert!(registry.is_empty());
    assert_eq!(registry.get_or_insert(&[3u8; 32]), Some(0));
    let d = PeerRegistry::default();
    assert_eq!(d.len(), 0);
}

#[test]
fn test_directed_event_buffer() {
    let mut buffer = DirectedEventBuffer::new(3);

    let p1 = DirectedParticleInstance::new(0, 1, 0, 1000, 106, 128);
    let p2 = DirectedParticleInstance::new(1, 2, 1000, 1000, 128, -128);
    let p3 = DirectedParticleInstance::new(2, 3, 2000, 1000, 131, 0);
    let p4 = DirectedParticleInstance::new(3, 4, 3000, 1000, 106, 77);

    buffer.push(p1);
    buffer.push(p2);
    buffer.push(p3);
    assert_eq!(buffer.len(), 3);

    // Push past capacity evicts oldest
    buffer.push(p4);
    assert_eq!(buffer.len(), 3);

    // Filter by time
    let active = buffer.get_active_particles(3500, 2000);
    assert_eq!(active.len(), 2); // p3 and p4 (birth >= 1500)

    // Disable event type 106
    buffer.set_type_enabled(106, false);
    let active = buffer.get_active_particles(3500, 2000);
    assert_eq!(active.len(), 1); // Only p3 (type 131)
    assert_eq!(buffer.active_count(3500, 2000), 1);
}

#[test]
fn test_type_filter_bitfield() {
    let mut buffer = DirectedEventBuffer::new(10);

    // All enabled by default
    assert!(buffer.is_type_enabled(0));
    assert!(buffer.is_type_enabled(63));
    assert!(buffer.is_type_enabled(64));
    assert!(buffer.is_type_enabled(255));

    // Disable some
    buffer.set_type_enabled(0, false);
    buffer.set_type_enabled(255, false);

    assert!(!buffer.is_type_enabled(0));
    assert!(buffer.is_type_enabled(1));
    assert!(!buffer.is_type_enabled(255));
    assert!(buffer.is_type_enabled(254));
}

#[test]
fn new_since_cursor_skips_uploaded_particles() {
    let mut buffer = DirectedEventBuffer::new(3);
    for i in 0..5u64 {
        buffer.push(DirectedParticleInstance::new(0, 0, i, 1000, 10, 0));
    }
    // Holds pushes 2, 3, 4.
    let (held, cursor, skip) = buffer.get_new_since(3);
    assert_eq!(cursor, 5);
    assert_eq!(skip, 1);
    let births: Vec<u64> = held.iter().skip(skip).map(|p| p.birth_ms).collect();
    assert_eq!(births, vec![3, 4]);
    // Stale cursor: everything held.
    let (_, _, skip) = buffer.get_new_since(0);
    assert_eq!(skip, 0);
    // Up to date: nothing new.
    let (held, _, skip) = buffer.get_new_since(5);
    assert_eq!(held.iter().skip(skip).count(), 0);
    buffer.clear();
    assert!(buffer.is_empty());
    assert_eq!(buffer.get_new_since(5).1, 5);
}

#[test]
fn enabled_types_round_trip() {
    let mut buffer = DirectedEventBuffer::default();
    assert_eq!(buffer.capacity(), 100_000);
    assert_eq!(*buffer.enabled_types(), [u64::MAX; 4]);
    buffer.set_enabled_types([1, 2, 3, 4]);
    assert_eq!(*buffer.enabled_types(), [1, 2, 3, 4]);
    assert!(buffer.is_type_enabled(0));
    assert!(!buffer.is_type_enabled(1));
    assert!(buffer.is_type_enabled(65));
}

#[test]
fn filter_bitfield_splits_words() {
    let f = FilterBitfield::from_u64_bitfield(&[0x0000_0002_0000_0001, u64::MAX, 0, 1u64 << 63]);
    assert_eq!(f.words, [1, 2, u32::MAX, u32::MAX, 0, 0, 0, 1u32 << 31]);
    let all = FilterBitfield::all_enabled();
    assert_eq!(all.words, [u32::MAX; 8]);
}

#[test]
fn color_schema_labels() {
    let labels: Vec<&str> = ColorSchema::all().iter().map(|s| s.label()).collect();
    assert_eq!(labels, vec!["Vivid", "Accessible", "Pipeline", "Mono"]);
    assert!(ColorSchema::default() == ColorSchema::Vivid);
}

#[test]
fn upload_plan_wraps_around_the_ring() {
    let mut ring = InstanceRing::new(4, 2);
    let chunks = ring.plan_upload(3);
    assert_eq!(chunks.len(), 1);
    assert_eq!((chunks[0].buffer, chunks[0].offset, chunks[0].start, chunks[0].len), (0, 0, 0, 3));
    assert_eq!(*ring.buffer_counts(), vec![3, 0]);
    // 6 more: 1 into buffer 0, 4 into buffer 1, then 1 wraps to buffer 0.
    let chunks = ring.plan_upload(6);
    let got: Vec<(usize, usize, usize, usize)> = chunks.iter().map(|c| (c.buffer, c.offset, c.start, c.len)).collect();
    assert_eq!(got, vec![(0, 3, 0, 1), (1, 0, 1, 4), (0, 0, 5, 1)]);
    // The ring has been filled: every buffer is drawn in full.
    assert_eq!(*ring.buffer_counts(), vec![4, 4]);
    assert!(ring.plan_upload(0).is_empty());
    ring.reset();
    assert_eq!(*ring.buffer_counts(), vec![0, 0]);
    let big = InstanceRing::new(RING_BUFFER_CAPACITY, RING_NUM_BUFFERS);
    assert_eq!(big.buffer_counts().len(), 4);
}

#[test]
fn pulses_expire_after_their_duration() {
    let pulse = |node_index: u16, birth_ms: u64| PulseEvent {
        node_index,
        event_type: EventType::Authoring,
        birth_ms,
    };
    let mut pulses = vec![pulse(0, 1_000), pulse(1, 1_500), pulse(2, 1_700), pulse(3, 2_500)];
    retain_live_pulses(&mut pulses, 2_000, PULSE_DURATION_MS);
    let kept: Vec<u16> = pulses.iter().map(|p| p.node_index).collect();
    // 1_000 is 1000 ms old and 1_500 exactly 500 ms; 1_700 is 300 ms old and
    // 2_500 is stamped later than now.
    assert_eq!(kept, vec![2, 3]);

    let mut edge = vec![pulse(7, 1_600)];
    retain_live_pulses(&mut edge, 2_000, PULSE_DURATION_MS);
    assert!(edge.is_empty(), "a pulse exactly 400 ms old has finished");
}

#[test]
fn retain_keeps_matching_particles_in_order() {
    let mut buf = DirectedEventBuffer::new(10);
    for i in 0..5u16 {
        buf.push(DirectedParticleInstance::new(i, i, 100 * i as u64, 1000, i as u8, 0));
    }
    buf.retain(|p| p.source_index % 2 == 0);
    let kept: Vec<u16> = buf.all_particles().iter().map(|p| p.source_index).collect();
    assert_eq!(kept, vec![0, 2, 4]);
    // What was pushed is still counted for uploads.
    let (_, total, _) = buf.get_new_since(0);
    assert_eq!(total, 5);
}
