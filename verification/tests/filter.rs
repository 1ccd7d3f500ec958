use jam_orbit::catalog::{bidir_events, error_event_types, inbound_events, is_error_event, outbound_events};
use jam_orbit::events::EventType;
use jam_orbit::filter::{
    is_errors_only, narrow_keep_only, narrow_remove, selected_count, toggle_category_all, toggle_category_errors,
    EventFilter,
};

fn all_selected() -> Vec<bool> {
    vec![true; 256]
}

fn none_selected() -> Vec<bool> {
    vec![false; 256]
}

const CONNECTION_EVENTS: &[EventType] = &[
    EventType::ConnectionRefused,
    EventType::ConnectingIn,
    EventType::ConnectInFailed,
    EventType::ConnectedIn,
    EventType::ConnectingOut,
    EventType::ConnectOutFailed,
    EventType::ConnectedOut,
    EventType::Disconnected,
    EventType::PeerMisbehaved,
];

fn connection_error_types() -> Vec<EventType> {
    CONNECTION_EVENTS.iter().copied().filter(|et| is_error_event(*et)).collect()
}

#[test]
fn click_left_when_all_selected_turns_none() {
    let mut sel = all_selected();
    toggle_category_all(&mut sel, CONNECTION_EVENTS);
    assert!(CONNECTION_EVENTS.iter().all(|&et| !sel[et.idx()]));
}

#[test]
fn click_left_when_none_selected_turns_all() {
    let mut sel = none_selected();
    toggle_category_all(&mut sel, CONNECTION_EVENTS);
    assert!(CONNECTION_EVENTS.iter().all(|&et| sel[et.idx()]));
}

#[test]
fn click_left_when_partial_turns_all() {
    let mut sel = none_selected();
    sel[EventType::ConnectionRefused.idx()] = true;
    sel[EventType::ConnectingIn.idx()] = true;
    toggle_category_all(&mut sel, CONNECTION_EVENTS);
    assert!(CONNECTION_EVENTS.iter().all(|&et| sel[et.idx()]));
}

#[test]
fn click_left_when_errors_only_turns_all() {
    let mut sel = none_selected();
    for &et in &connection_error_types() {
        sel[et.idx()] = true;
    }
    assert!(is_errors_only(&sel, CONNECTION_EVENTS));
    toggle_category_all(&mut sel, CONNECTION_EVENTS);
    assert!(CONNECTION_EVENTS.iter().all(|&et| sel[et.idx()]));
}

#[test]
fn click_right_when_all_turns_errors_only() {
    let mut sel = all_selected();
    toggle_category_errors(&mut sel, CONNECTION_EVENTS);
    let errs = connection_error_types();
    for &et in CONNECTION_EVENTS {
        assert_eq!(sel[et.idx()], errs.contains(&et));
    }
}

#[test]
fn click_right_when_none_turns_errors_only() {
    let mut sel = none_selected();
    toggle_category_errors(&mut sel, CONNECTION_EVENTS);
    let errs = connection_error_types();
    for &et in CONNECTION_EVENTS {
        assert_eq!(sel[et.idx()], errs.contains(&et));
    }
}

#[test]
fn click_right_when_errors_only_turns_all() {
    let mut sel = none_selected();
    for &et in &connection_error_types() {
        sel[et.idx()] = true;
    }
    toggle_category_errors(&mut sel, CONNECTION_EVENTS);
    assert!(CONNECTION_EVENTS.iter().all(|&et| sel[et.idx()]));
}

#[test]
fn click_right_when_partial_turns_errors_only() {
    let mut sel = none_selected();
    sel[EventType::ConnectionRefused.idx()] = true;
    sel[EventType::ConnectedIn.idx()] = true;
    toggle_category_errors(&mut sel, CONNECTION_EVENTS);
    let errs = connection_error_types();
    for &et in CONNECTION_EVENTS {
        assert_eq!(sel[et.idx()], errs.contains(&et));
    }
}

#[test]
fn narrow_keep_only_intersects_selection() {
    let mut sel = all_selected();
    let keep = &[EventType::ConnectedIn, EventType::ConnectingOut, EventType::Disconnected];
    narrow_keep_only(&mut sel, keep);
    assert!(sel[EventType::ConnectedIn.idx()]);
    assert!(sel[EventType::ConnectingOut.idx()]);
    assert!(sel[EventType::Disconnected.idx()]);
    assert!(!sel[EventType::Status.idx()]);
    assert!(!sel[EventType::SendingGuarantee.idx()]);
}

#[test]
fn narrow_keep_only_preserves_already_disabled() {
    let mut sel = none_selected();
    sel[EventType::ConnectedIn.idx()] = true;
    sel[EventType::ConnectingOut.idx()] = true;
    sel[EventType::Status.idx()] = true;
    let keep = &[EventType::ConnectedIn, EventType::ConnectingOut, EventType::Disconnected];
    narrow_keep_only(&mut sel, keep);
    assert!(sel[EventType::ConnectedIn.idx()]);
    assert!(sel[EventType::ConnectingOut.idx()]);
    assert!(!sel[EventType::Disconnected.idx()]); // was false, stays false
    assert!(!sel[EventType::Status.idx()]); // not in keep set
}

#[test]
fn narrow_remove_disables_specified() {
    let mut sel = all_selected();
    let remove = &[EventType::ConnectionRefused, EventType::ConnectInFailed, EventType::ConnectOutFailed];
    narrow_remove(&mut sel, remove);
    assert!(!sel[EventType::ConnectionRefused.idx()]);
    assert!(!sel[EventType::ConnectInFailed.idx()]);
    assert!(!sel[EventType::ConnectOutFailed.idx()]);
    assert!(sel[EventType::ConnectedIn.idx()]); // not in remove set
}

#[test]
fn narrow_local_removes_all_directed() {
    let mut sel = all_selected();
    let outbound = outbound_events();
    let inbound = inbound_events();
    let bidir = bidir_events();
    narrow_remove(&mut sel, &outbound);
    narrow_remove(&mut sel, &inbound);
    narrow_remove(&mut sel, &bidir);
    // All directed events should be off
    for &et in &outbound {
        assert!(!sel[et.idx()]);
    }
    for &et in &inbound {
        assert!(!sel[et.idx()]);
    }
    for &et in &bidir {
        assert!(!sel[et.idx()]);
    }
    // Non-directed events should still be on
    assert!(sel[EventType::Status.idx()]);
    assert!(sel[EventType::Authoring.idx()]);
    assert!(sel[EventType::GuaranteeBuilt.idx()]);
}

#[test]
fn is_errors_only_false_for_category_without_errors() {
    let sel = all_selected();
    let fake_types: &[EventType] = &[
        EventType::Status,
        EventType::BestBlockChanged,
        EventType::FinalizedBlockChanged,
        EventType::SyncStatusChanged,
    ];
    let has_errors = fake_types.iter().any(|et| is_error_event(*et));
    if !has_errors {
        assert!(!is_errors_only(&sel, fake_types));
    }
}

#[test]
fn toggle_all_twice_restores_full_category() {
    let mut sel = all_selected();
    toggle_category_all(&mut sel, CONNECTION_EVENTS);
    toggle_category_all(&mut sel, CONNECTION_EVENTS);
    assert_eq!(sel, all_selected());
}

#[test]
fn toggle_errors_leaves_errors_only_state() {
    let mut sel = none_selected();
    sel[EventType::ConnectedIn.idx()] = true;
    assert!(!is_errors_only(&sel, CONNECTION_EVENTS));
    toggle_category_errors(&mut sel, CONNECTION_EVENTS);
    assert!(is_errors_only(&sel, CONNECTION_EVENTS));
    // Kinds outside the category are untouched.
    assert!(!sel[EventType::Status.idx()]);
}

#[test]
fn narrowing_twice_changes_nothing_more() {
    let mut sel = all_selected();
    let keep = &[EventType::ConnectedIn, EventType::Status];
    narrow_keep_only(&mut sel, keep);
    let once = sel.clone();
    narrow_keep_only(&mut sel, keep);
    assert_eq!(sel, once);
    let remove = &[EventType::Status];
    narrow_remove(&mut sel, remove);
    let once = sel.clone();
    narrow_remove(&mut sel, remove);
    assert_eq!(sel, once);
}

#[test]
fn errors_preset_selects_exactly_failures() {
    let mut f = EventFilter::new();
    assert_eq!(f.selected_events.len(), 200);
    assert!(f.selected_events.iter().all(|&b| b));
    f.apply_errors_filter();
    assert!(f.errors_only);
    let errs = error_event_types();
    assert_eq!(errs.len(), 31);
    for code in 0..200usize {
        let is_err = errs.iter().any(|et| et.idx() == code);
        assert_eq!(f.selected_events[code], is_err, "code {}", code);
    }
    f.apply_all_filter();
    assert!(!f.errors_only);
    assert!(f.selected_events.iter().all(|&b| b));
    f.select_none();
    assert!(f.selected_events.iter().all(|&b| !b));
}

#[test]
fn solo_category_enables_only_its_kinds() {
    let mut f = EventFilter::new();
    f.solo_category(CONNECTION_EVENTS);
    for code in 0..200usize {
        assert_eq!(f.selected_events[code], (20..=28).contains(&code));
    }
}

#[test]
fn filter_bitfield_matches_selection() {
    let mut f = EventFilter::new();
    f.select_none();
    f.selected_events[0] = true;
    f.selected_events[63] = true;
    f.selected_events[64] = true;
    f.selected_events[199] = true;
    let bits = f.build_filter_bitfield();
    assert_eq!(bits[0], 1u64 | (1u64 << 63));
    assert_eq!(bits[1], 1u64);
    assert_eq!(bits[2], 0u64);
    assert_eq!(bits[3], 1u64 << (199 - 192));
}

#[test]
fn filter_bitfield_ignores_disabled_entries_past_the_code_space() {
    let mut f = EventFilter::new();
    f.select_none();
    f.selected_events.resize(300, false);
    f.selected_events[255] = true;
    let bits = f.build_filter_bitfield();
    assert_eq!(bits[3], 1u64 << 63);
    assert_eq!(bits[0] | bits[1] | bits[2], 0);
}

#[test]
fn selected_count_counts_the_enabled_kinds_of_a_category() {
    let mut sel = none_selected();
    let conn = [EventType::ConnectionRefused, EventType::ConnectingIn, EventType::ConnectInFailed];
    assert_eq!(selected_count(&sel, &conn), 0);
    sel[EventType::ConnectingIn.idx()] = true;
    sel[EventType::Status.idx()] = true;
    assert_eq!(selected_count(&sel, &conn), 1);
    assert_eq!(selected_count(&all_selected(), &conn), 3);
}
