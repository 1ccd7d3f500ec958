use jam_orbit::catalog::{
    bidir_events, category_index, error_event_types, event_categories, event_color_rgb, event_name, inbound_events,
    is_error_event, outbound_events,
};
use jam_orbit::events::{BlockOutline, ConnectionSide, Event, EventType, PeerAddress, PeerDetails, Reason};

#[test]
fn test_event_type_from_u8_valid_ranges() {
    assert_eq!(EventType::from_u8(0), Some(EventType::Dropped));
    assert_eq!(EventType::from_u8(10), Some(EventType::Status));
    assert_eq!(EventType::from_u8(13), Some(EventType::SyncStatusChanged));
    assert_eq!(EventType::from_u8(20), Some(EventType::ConnectionRefused));
    assert_eq!(EventType::from_u8(28), Some(EventType::PeerMisbehaved));
    assert_eq!(EventType::from_u8(40), Some(EventType::Authoring));
    assert_eq!(EventType::from_u8(47), Some(EventType::BlockExecuted));
    assert_eq!(EventType::from_u8(90), Some(EventType::WorkPackageSubmission));
    assert_eq!(EventType::from_u8(113), Some(EventType::GuaranteeDiscarded));
    assert_eq!(EventType::from_u8(199), Some(EventType::PreimageDiscarded));
}

#[test]
fn test_event_type_from_u8_gaps() {
    assert_eq!(EventType::from_u8(1), None);
    assert_eq!(EventType::from_u8(9), None);
    assert_eq!(EventType::from_u8(14), None);
    assert_eq!(EventType::from_u8(19), None);
    assert_eq!(EventType::from_u8(29), None);
    assert_eq!(EventType::from_u8(39), None);
    assert_eq!(EventType::from_u8(48), None);
    assert_eq!(EventType::from_u8(59), None);
    assert_eq!(EventType::from_u8(69), None);
    assert_eq!(EventType::from_u8(79), None);
    assert_eq!(EventType::from_u8(85), None);
    assert_eq!(EventType::from_u8(89), None);
    assert_eq!(EventType::from_u8(114), None);
    assert_eq!(EventType::from_u8(119), None);
    assert_eq!(EventType::from_u8(200), None);
    assert_eq!(EventType::from_u8(255), None);
}

#[test]
fn test_event_name() {
    assert_eq!(event_name(0), "Dropped");
    assert_eq!(event_name(10), "Status");
    assert_eq!(event_name(106), "SendingGuarantee");
    assert_eq!(event_name(199), "PreimageDiscarded");
    assert_eq!(event_name(255), "Unknown");
}

#[test]
fn test_event_color_rgb() {
    assert_eq!(event_color_rgb(0), (128, 128, 128)); // Meta gray
    assert_eq!(event_color_rgb(10), (100, 200, 100)); // Status green
    assert_eq!(event_color_rgb(20), (100, 150, 255)); // Connection blue
    assert_eq!(event_color_rgb(106), (255, 100, 200)); // Guaranteeing magenta
    assert_eq!(event_color_rgb(250), (255, 255, 255)); // Unknown white
}

#[test]
fn test_directed_peer_outbound() {
    let peer_id = [42u8; 32];
    let event = Event::SendingGuarantee { timestamp: 0, built_id: 1, recipient: peer_id };
    let dp = event.directed_peer().expect("should be directed");
    assert_eq!(*dp.peer_id, peer_id);
    assert!(dp.is_outbound);
}

#[test]
fn test_directed_peer_inbound() {
    let peer_id = [99u8; 32];
    let event = Event::ReceivingGuarantee { timestamp: 0, sender: peer_id };
    let dp = event.directed_peer().expect("should be directed");
    assert_eq!(*dp.peer_id, peer_id);
    assert!(!dp.is_outbound);
}

#[test]
fn test_directed_peer_connection_side() {
    let peer_id = [7u8; 32];
    // Local announcer = outbound
    let event = Event::BlockAnnounced { timestamp: 0, peer: peer_id, announcer: ConnectionSide::Local, slot: 1, hash: [0u8; 32] };
    let dp = event.directed_peer().unwrap();
    assert!(dp.is_outbound);

    // Remote announcer = inbound
    let event = Event::BlockAnnounced { timestamp: 0, peer: peer_id, announcer: ConnectionSide::Remote, slot: 1, hash: [0u8; 32] };
    let dp = event.directed_peer().unwrap();
    assert!(!dp.is_outbound);
}

#[test]
fn test_directed_peer_none_for_non_directed() {
    let event = Event::Status {
        timestamp: 0,
        num_peers: 1,
        num_val_peers: 0,
        num_sync_peers: 0,
        num_guarantees: vec![],
        num_shards: 0,
        shards_size: 0,
        num_preimages: 0,
        preimages_size: 0,
    };
    assert!(event.directed_peer().is_none());
}

#[test]
fn test_travel_duration() {
    let slow = Event::ConnectingOut {
        timestamp: 0,
        to: PeerDetails { peer_id: [0u8; 32], peer_address: PeerAddress { ipv6: [0u8; 16], port: 0 } },
    };
    assert_eq!(slow.travel_duration(), 3000);

    let medium = Event::SendingGuarantee { timestamp: 0, built_id: 0, recipient: [0u8; 32] };
    assert_eq!(medium.travel_duration(), 2000);

    // Default case
    let default_event = Event::Authored {
        timestamp: 0,
        authoring_id: 0,
        outline: BlockOutline {
            size_bytes: 0,
            hash: [0u8; 32],
            num_tickets: 0,
            num_preimages: 0,
            total_preimages_size: 0,
            num_guarantees: 0,
            num_assurances: 0,
            num_dispute_verdicts: 0,
        },
    };
    assert_eq!(default_event.travel_duration(), 2000);
}

#[test]
fn code_and_from_u8_round_trip() {
    let mut count = 0;
    for v in 0..=255u8 {
        if let Some(t) = EventType::from_u8(v) {
            assert_eq!(t.code(), v);
            assert_eq!(t.idx(), v as usize);
            assert_ne!(event_name(v), "Unknown");
            count += 1;
        } else {
            assert_eq!(event_name(v), "Unknown");
            assert_eq!(event_color_rgb(v), (255, 255, 255));
        }
    }
    assert_eq!(count, 115);
}

#[test]
fn timestamp_and_reason_read_the_event() {
    let e = Event::Disconnected { timestamp: 77, peer: [3u8; 32], terminator: None, reason: Reason("timeout".to_string()) };
    assert_eq!(e.timestamp(), 77);
    assert_eq!(e.reason(), Some("timeout"));
    assert_eq!(e.event_type(), EventType::Disconnected);
    let e = Event::GuaranteeSent { timestamp: 5, sending_id: 9 };
    assert_eq!(e.reason(), None);
    assert_eq!(e.timestamp(), 5);
}

#[test]
fn categories_partition_the_kinds() {
    let cats = event_categories();
    assert_eq!(cats.len(), 12);
    assert_eq!(cats[0].name, "Meta");
    assert_eq!(cats[2].name, "Connection");
    assert_eq!(cats[11].name, "Preimages");
    let conn: Vec<u8> = cats[2].event_types.iter().map(|t| t.code()).collect();
    assert_eq!(conn, (20..=28).collect::<Vec<u8>>());
    let wp: Vec<u8> = cats[6].event_types.iter().map(|t| t.code()).collect();
    assert_eq!(wp, (90..=104).collect::<Vec<u8>>());
    let total: usize = cats.iter().map(|c| c.event_types.len()).sum();
    assert_eq!(total, 115);
    for (i, c) in cats.iter().enumerate() {
        for t in &c.event_types {
            assert_eq!(category_index(*t), i);
            // Same category, same colour.
            assert_eq!(event_color_rgb(t.code()), event_color_rgb(c.event_types[0].code()));
        }
    }
}

#[test]
fn failure_and_direction_lists() {
    let errs = error_event_types();
    let codes: Vec<u8> = errs.iter().map(|t| t.code()).collect();
    assert_eq!(
        codes,
        vec![0, 20, 22, 25, 27, 28, 41, 44, 46, 61, 65, 81, 83, 92, 93, 99, 107, 111, 113, 122, 127, 130, 142, 150, 164, 169, 171, 175, 190, 195, 199]
    );
    assert!(is_error_event(EventType::PeerMisbehaved));
    assert!(!is_error_event(EventType::Status));
    let out: Vec<u8> = outbound_events().iter().map(|t| t.code()).collect();
    assert_eq!(out, vec![24, 63, 98, 99, 100, 106, 120, 127, 128]);
    let inb: Vec<u8> = inbound_events().iter().map(|t| t.code()).collect();
    assert_eq!(inb, vec![23, 64, 91, 104, 110, 121, 130, 131]);
    let bid: Vec<u8> = bidir_events().iter().map(|t| t.code()).collect();
    assert_eq!(bid, vec![27, 28, 60, 61, 62, 83, 84]);
}

#[test]
fn reason_of_ticket_transfer_and_announcement_stream_failures() {
    let e = Event::TicketTransferFailed {
        timestamp: 0,
        peer: [0u8; 32],
        sender: ConnectionSide::Local,
        from_proxy: false,
        reason: Reason("timeout".to_string()),
    };
    assert_eq!(e.reason(), Some("timeout"));
    let e = Event::BlockAnnouncementStreamClosed {
        timestamp: 0,
        peer: [0u8; 32],
        closer: ConnectionSide::Remote,
        reason: Reason("reset".to_string()),
    };
    assert_eq!(e.reason(), Some("reset"));
}

#[test]
fn event_names_are_distinct_and_known() {
    let mut names: Vec<&str> = Vec::new();
    for v in 0..=255u8 {
        if EventType::from_u8(v).is_some() {
            let name = event_name(v);
            assert_ne!(name, "Unknown");
            assert!(!names.contains(&name), "duplicate name {}", name);
            names.push(name);
        }
    }
    assert_eq!(names.len(), 115);
}
