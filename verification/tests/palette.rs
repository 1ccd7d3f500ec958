use jam_orbit::catalog::{category_index, event_categories};
use jam_orbit::events::EventType;
use jam_orbit::palette::{active_categories, color_plan, ColorSlot};

fn all_selected() -> Vec<bool> {
    vec![true; 200]
}

fn none_selected() -> Vec<bool> {
    vec![false; 200]
}

#[test]
fn color_plan_multi_category_same_slot_per_category() {
    let plan = color_plan(&all_selected());
    assert_eq!(plan.len(), 256);
    let slot_20 = plan[20];
    assert_eq!(slot_20, ColorSlot::Category(2));
    for et in 21..=28usize {
        assert_eq!(plan[et], slot_20, "Connection event {} should match event 20", et);
    }
    assert_eq!(plan[1], ColorSlot::Off);
    assert_eq!(plan[250], ColorSlot::Off);
}

#[test]
fn color_plan_single_category_distinct_slots() {
    let mut sel = none_selected();
    for et in 20..=28usize {
        sel[et] = true;
    }
    assert_eq!(active_categories(&sel), vec![2]);
    let plan = color_plan(&sel);
    for (i, et) in (20..=28usize).enumerate() {
        assert_eq!(plan[et], ColorSlot::Palette(i, 9));
    }
}

#[test]
fn color_plan_single_category_unselected_are_off() {
    let mut sel = none_selected();
    for et in [20usize, 22, 28] {
        sel[et] = true;
    }
    let plan = color_plan(&sel);
    assert_eq!(plan[10], ColorSlot::Off);
    assert_eq!(plan[0], ColorSlot::Off);
    assert_eq!(plan[21], ColorSlot::Off);
    assert_eq!(plan[20], ColorSlot::Palette(0, 3));
    assert_eq!(plan[22], ColorSlot::Palette(1, 3));
    assert_eq!(plan[28], ColorSlot::Palette(2, 3));
}

#[test]
fn color_plan_no_events_selected() {
    let plan = color_plan(&none_selected());
    assert!(active_categories(&none_selected()).is_empty());
    for (cat_idx, category) in event_categories().iter().enumerate() {
        for &et in &category.event_types {
            assert_eq!(plan[et.idx()], ColorSlot::Category(cat_idx));
            assert_eq!(category_index(et), cat_idx);
        }
    }
}

#[test]
fn color_plan_two_categories_use_category_colours() {
    let mut sel = none_selected();
    sel[EventType::Status.idx()] = true;
    sel[EventType::SendingGuarantee.idx()] = true;
    assert_eq!(active_categories(&sel), vec![1, 7]);
    let plan = color_plan(&sel);
    assert_eq!(plan[EventType::Status.idx()], ColorSlot::Category(1));
    assert_eq!(plan[EventType::BestBlockChanged.idx()], ColorSlot::Category(1));
    assert_eq!(plan[EventType::Dropped.idx()], ColorSlot::Category(0));
}
