use jam_orbit::events::Event;
use jam_orbit::store::{BestBlockData, EventStore, TimeSeriesData};

fn status_event() -> Event {
    Event::Status {
        timestamp: 0,
        num_peers: 1,
        num_val_peers: 0,
        num_sync_peers: 0,
        num_guarantees: vec![],
        num_shards: 0,
        shards_size: 0,
        num_preimages: 0,
        preimages_size: 0,
    }
}

#[test]
fn test_time_series_push_and_eviction() {
    let mut ts = TimeSeriesData::new(2, 3);

    // Push values to first node
    ts.push("node1", 1u32);
    ts.push("node1", 2);
    ts.push("node1", 3);

    assert!(ts.latest_value("node1").is_some());
    assert!(ts.latest_value("node2").is_none());
    assert_eq!(ts.max_series_len(), 3);

    // Push beyond max_points to trigger eviction
    ts.push("node1", 4);

    // Should still have 3 points (oldest evicted)
    assert_eq!(ts.max_series_len(), 3);
    assert_eq!(ts.series[0], vec![2, 3, 4]);

    // Push to second node
    ts.push("node2", 5);
    assert!(ts.latest_value("node2").is_some());
    assert_eq!(ts.latest_value("node2"), Some(5));

    // Verify point_count - returns length of the first non-empty series
    assert_eq!(ts.point_count(), 3); // node1 has 3 points
    assert_eq!(ts.validator_count(), 2);
}

#[test]
fn time_series_shares_last_slot_when_full() {
    let mut ts = TimeSeriesData::new(2, 5);
    ts.push("a", 1u32);
    ts.push("b", 2);
    ts.push("c", 3);
    assert_eq!(ts.series[1], vec![2, 3]);
    assert_eq!(ts.latest_value("b"), Some(3));
    assert_eq!(ts.latest_value("c"), Some(3));
}

#[test]
fn test_best_block_data() {
    let mut bbd = BestBlockData::new(10);

    // Set best blocks for two nodes
    bbd.set_best("node1", 100);
    bbd.set_best("node2", 150);

    // Set finalized for one node
    bbd.set_finalized("node1", 90);

    // Verify highest_slot filters zeros and returns max
    assert_eq!(bbd.highest_slot(), Some(150));

    // Verify highest_finalized filters zeros
    assert_eq!(bbd.highest_finalized(), Some(90));

    // Set a higher finalized
    bbd.set_finalized("node2", 95);
    assert_eq!(bbd.highest_finalized(), Some(95));
    assert_eq!(bbd.validator_count(), 2);
}

#[test]
fn highest_slot_none_when_all_zero() {
    let bbd = BestBlockData::new(3);
    assert_eq!(bbd.highest_slot(), None);
    assert_eq!(bbd.highest_finalized(), None);
}

#[test]
fn test_compute_rates_per_node() {
    let mut store = EventStore::new(100, 60_000);

    let now = 60_000;
    let bucket_duration = 1_000;
    let num_buckets = 10;

    // Push to node1
    store.push("node1", status_event(), now - 1_000);
    store.push("node1", status_event(), now - 2_000);

    // Push to node2
    store.push("node2", status_event(), now - 1_000);

    let rates = store.compute_rates_per_node(now, bucket_duration, num_buckets, &[true; 256]);

    // Should have 2 nodes
    assert_eq!(rates.len(), 2);

    // Each entry has buckets
    for (node_idx, buckets) in &rates {
        assert!(node_idx < &2);
        assert_eq!(buckets.len(), num_buckets);

        let total: u32 = buckets.iter().sum();
        if store.node_index("node1").unwrap() == *node_idx {
            assert_eq!(total, 2);
        } else {
            assert_eq!(total, 1);
        }
    }
}

#[test]
fn rates_place_events_in_their_buckets() {
    let mut store = EventStore::new(100, 60_000);
    // Aligned now = 10_000; buckets of 1_000 cover (5_000, 10_000].
    store.push("n", status_event(), 9_500); // age 500 -> newest bucket
    store.push("n", status_event(), 9_000); // age 1000 -> bucket 3
    store.push("n", status_event(), 5_000); // age 5000 -> clamped to the oldest
    store.push("n", status_event(), 4_999); // outside the window
    store.push("n", status_event(), 10_000); // not before aligned now
    let rates = store.compute_rates_per_node(10_400, 1_000, 5, &[true; 256]);
    assert_eq!(rates, vec![(0u16, vec![1, 0, 0, 1, 1])]);
    // Status events filtered out.
    let mut filter = [true; 256];
    filter[10] = false;
    let rates = store.compute_rates_per_node(10_400, 1_000, 5, &filter);
    assert_eq!(rates, vec![(0u16, vec![0, 0, 0, 0, 0])]);
    // A short filter leaves later kinds out.
    let rates = store.compute_rates_per_node(10_400, 1_000, 5, &[true; 5]);
    assert_eq!(rates, vec![(0u16, vec![0, 0, 0, 0, 0])]);
}

#[test]
fn test_prune() {
    let mut store = EventStore::new(100, 30_000);

    // Push events at different timestamps (in chronological order)
    store.push("node1", status_event(), 10_000);
    store.push("node1", status_event(), 50_000);
    store.push("node1", status_event(), 100_000);

    // Prune with current time = 100.0, retention = 30.0
    // Events older than 70.0 should be removed
    store.prune(100_000);

    // cutoff = 100 - 30 = 70, so events at 10.0 and 50.0 are pruned, only 100.0 remains
    assert_eq!(store.node_count(), 1);
    // Verify only 1 Status event remains for node1
    let remaining = store.node_events("node1", 10).unwrap();
    assert_eq!(remaining.len(), 1);
}

#[test]
fn buckets_are_bounded_per_kind() {
    let mut store = EventStore::new(2, 1_000);
    for t in 0..5u64 {
        store.push("x", status_event(), t);
    }
    store.push("x", Event::GuaranteeSent { timestamp: 0, sending_id: 1 }, 9);
    let st = store.node_events("x", 10).unwrap();
    let stamps: Vec<u64> = st.iter().map(|e| e.timestamp).collect();
    assert_eq!(stamps, vec![3, 4]);
    assert_eq!(store.node_events("x", 108).unwrap().len(), 1);
    assert!(store.node_events("x", 11).is_none());
    assert!(store.node_events("y", 10).is_none());
    let nodes = store.nodes();
    assert_eq!(nodes.len(), 1);
    assert_eq!(nodes[0].0, "x");
    assert_eq!(nodes[0].1.total_events(), 3);
    assert_eq!(nodes[0].1.index, 0);
    assert_eq!(st[0].event_type(), 10);
}

#[test]
fn node_positions_count_up() {
    let mut store = EventStore::new(10, 1_000);
    store.push("a", status_event(), 1);
    store.push("b", status_event(), 1);
    store.push("a", status_event(), 2);
    assert_eq!(store.node_index("a"), Some(0));
    assert_eq!(store.node_index("b"), Some(1));
    assert_eq!(store.node_index("c"), None);
    assert_eq!(store.node_count(), 2);
}

#[test]
fn point_count_skips_empty_series() {
    let mut ts: TimeSeriesData<u32> = TimeSeriesData::new(3, 5);
    assert_eq!(ts.point_count(), 0);
    ts.series[1].push(7);
    ts.series[1].push(8);
    ts.series[2].push(9);
    assert_eq!(ts.point_count(), 2);
}

#[test]
fn peer_counts_follow_ring_positions() {
    let mut events = EventStore::new(10, 60_000);
    let mut series: TimeSeriesData<u32> = TimeSeriesData::new(4, 5);
    assert_eq!(events.peer_counts(&series), vec![0]);
    events.push("a", status_event(), 0);
    events.push("b", status_event(), 0);
    events.push("c", status_event(), 0);
    series.push("b", 7);
    series.push("a", 3);
    series.push("b", 9);
    // Positions follow first sight in the event store; "c" has no count.
    assert_eq!(events.peer_counts(&series), vec![3, 9, 0]);
}
