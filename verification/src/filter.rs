//! The event filter: which event kinds are shown, and the click rules of the
//! filter panel.

use vstd::prelude::*;
use crate::bits::{bit64, lemma_clear_bit, lemma_full_and_empty, lemma_set_bit, mask_bit};
use crate::catalog::{error_event_types, error_kinds, is_error_event, is_error_kind, kinds_where, lemma_kinds_where};
use crate::events::{decode_event_type, lemma_decode_code, lemma_decode_sound, EventType};
use crate::vring::lemma_filter_push;

verus! {

/// Some kind in `ts` has code `j`.
pub open spec fn mentions(ts: Seq<EventType>, j: int) -> bool {
    exists|i: int| 0 <= i < ts.len() && (#[trigger] ts[i]).spec_code() == j
}

/// Every kind in `ts` indexes into a selection of length `len`.
pub open spec fn fits(ts: Seq<EventType>, len: nat) -> bool {
    forall|i: int| 0 <= i < ts.len() ==> (#[trigger] ts[i]).spec_code() < len
}

/// Every kind in `ts` is selected.
pub open spec fn all_on(sel: Seq<bool>, ts: Seq<EventType>) -> bool {
    forall|i: int| 0 <= i < ts.len() ==> sel[(#[trigger] ts[i]).spec_code() as int]
}

/// Exactly the failure kinds of `ts` are selected.
pub open spec fn errors_only_state(sel: Seq<bool>, ts: Seq<EventType>) -> bool {
    forall|i: int| 0 <= i < ts.len() ==> sel[(#[trigger] ts[i]).spec_code() as int] == is_error_kind(ts[i])
}

/// Some kind of `ts` is a failure kind.
pub open spec fn has_error(ts: Seq<EventType>) -> bool {
    exists|i: int| 0 <= i < ts.len() && is_error_kind(#[trigger] ts[i])
}

/// Whether the code `j` names a failure kind.
pub open spec fn code_is_error(j: int) -> bool {
    0 <= j < 256 && match decode_event_type(j as u8) {
        Some(t) => is_error_kind(t),
        None => false,
    }
}

/// Selection after a click on the tri-state checkbox of category `ts`.
pub open spec fn toggled_all(sel: Seq<bool>, ts: Seq<EventType>) -> Seq<bool> {
    Seq::new(sel.len(), |j: int| if mentions(ts, j) { !all_on(sel, ts) } else { sel[j] })
}

/// Selection after a click on the errors checkbox of category `ts`.
pub open spec fn toggled_errors(sel: Seq<bool>, ts: Seq<EventType>) -> Seq<bool> {
    Seq::new(
        sel.len(),
        |j: int| if mentions(ts, j) { errors_only_state(sel, ts) || code_is_error(j) } else { sel[j] },
    )
}

/// Selection narrowed to the kinds in `keep`.
pub open spec fn kept_only(sel: Seq<bool>, keep: Seq<EventType>) -> Seq<bool> {
    Seq::new(sel.len(), |j: int| sel[j] && mentions(keep, j))
}

/// Selection with the kinds in `remove` deselected.
pub open spec fn removed(sel: Seq<bool>, remove: Seq<EventType>) -> Seq<bool> {
    Seq::new(sel.len(), |j: int| sel[j] && !mentions(remove, j))
}

/// No kind of `ts` is selected.
pub open spec fn none_on(sel: Seq<bool>, ts: Seq<EventType>) -> bool {
    forall|i: int| 0 <= i < ts.len() ==> !sel[(#[trigger] ts[i]).spec_code() as int]
}

/// Sets the selection of every kind in `ts` to `v`.
fn set_all(selected: &mut Vec<bool>, ts: &[EventType], v: bool)
    requires
        fits(ts@, old(selected)@.len()),
    ensures
        final(selected)@.len() == old(selected)@.len(),
        forall|j: int| 0 <= j < old(selected)@.len() ==> #[trigger] final(selected)@[j] == if mentions(ts@, j) {
            v
        } else {
            old(selected)@[j]
        },
{
    let ghost orig = selected@;
    let mut k: usize = 0;
    while k < ts.len()
        invariant
            k <= ts.len(),
            fits(ts@, orig.len()),
            selected@.len() == orig.len(),
            forall|j: int| 0 <= j < orig.len() ==> #[trigger] selected@[j] == if mentions(ts@.take(k as int), j) {
                v
            } else {
                orig[j]
            },
        decreases ts.len() - k,
    {
        let c = ts[k].idx();
        selected.set(c, v);
        assert forall|j: int| 0 <= j < orig.len() implies #[trigger] selected@[j] == if mentions(ts@.take(k + 1), j) {
            v
        } else {
            orig[j]
        } by {
            let pre = ts@.take(k as int);
            let post = ts@.take(k + 1);
            if mentions(pre, j) {
                let i = choose|i: int| 0 <= i < pre.len() && (#[trigger] pre[i]).spec_code() == j;
                assert(post[i] == pre[i]);
            }
            if mentions(post, j) && j != c {
                let i = choose|i: int| 0 <= i < post.len() && (#[trigger] post[i]).spec_code() == j;
                assert(pre[i] == post[i]);
            }
            if j == c {
                assert(post[k as int] == ts@[k as int]);
            }
        }
        k = k + 1;
    }
    assert(ts@.take(ts@.len() as int) == ts@);
}

/// Tri-state category checkbox: when every kind of the category is selected
/// they are all deselected, otherwise they are all selected. Kinds outside
/// the category keep their selection.
pub fn toggle_category_all(selected: &mut Vec<bool>, event_types: &[EventType])
    requires
        fits(event_types@, old(selected)@.len()),
    ensures
        final(selected)@ == toggled_all(old(selected)@, event_types@),
        final(selected)@.len() == old(selected)@.len(),
        forall|j: int| 0 <= j < old(selected)@.len() ==> #[trigger] final(selected)@[j] == if mentions(event_types@, j) {
            !all_on(old(selected)@, event_types@)
        } else {
            old(selected)@[j]
        },
{
    let mut all = true;
    let mut k: usize = 0;
    while k < event_types.len()
        invariant
            k <= event_types.len(),
            fits(event_types@, selected@.len()),
            all == forall|i: int| 0 <= i < k ==> selected@[(#[trigger] event_types@[i]).spec_code() as int],
        decreases event_types.len() - k,
    {
        if !selected[event_types[k].idx()] {
            all = false;
        }
        k = k + 1;
    }
    let ghost orig = selected@;
    set_all(selected, event_types, !all);
    assert(selected@ =~= toggled_all(orig, event_types@));
}

/// Errors checkbox of a category: when the category shows exactly its failure
/// kinds, every kind of it is selected again; otherwise exactly its failure
/// kinds are selected. Kinds outside the category keep their selection.
pub fn toggle_category_errors(selected: &mut Vec<bool>, event_types: &[EventType])
    requires
        fits(event_types@, old(selected)@.len()),
    ensures
        final(selected)@ == toggled_errors(old(selected)@, event_types@),
        final(selected)@.len() == old(selected)@.len(),
        forall|j: int| 0 <= j < old(selected)@.len() ==> #[trigger] final(selected)@[j] == if mentions(event_types@, j) {
            errors_only_state(old(selected)@, event_types@) || code_is_error(j)
        } else {
            old(selected)@[j]
        },
{
    let ghost orig = selected@;
    let mut only = true;
    let mut k: usize = 0;
    while k < event_types.len()
        invariant
            k <= event_types.len(),
            fits(event_types@, selected@.len()),
            only == forall|i: int| 0 <= i < k ==> selected@[(#[trigger] event_types@[i]).spec_code() as int] == is_error_kind(event_types@[i]),
        decreases event_types.len() - k,
    {
        let et = event_types[k];
        if selected[et.idx()] != is_error_event(et) {
            only = false;
        }
        k = k + 1;
    }
    if only {
        set_all(selected, event_types, true);
    } else {
        let mut k: usize = 0;
        while k < event_types.len()
            invariant
                k <= event_types.len(),
                fits(event_types@, orig.len()),
                selected@.len() == orig.len(),
                forall|j: int| 0 <= j < orig.len() ==> #[trigger] selected@[j] == if mentions(event_types@.take(k as int), j) {
                    code_is_error(j)
                } else {
                    orig[j]
                },
            decreases event_types.len() - k,
        {
            let et = event_types[k];
            let c = et.idx();
            let e = is_error_event(et);
            selected.set(c, e);
            proof { lemma_decode_code(et); }
            assert forall|j: int| 0 <= j < orig.len() implies #[trigger] selected@[j] == if mentions(event_types@.take(k + 1), j) {
                code_is_error(j)
            } else {
                orig[j]
            } by {
                let pre = event_types@.take(k as int);
                let post = event_types@.take(k + 1);
                if mentions(pre, j) {
                    let i = choose|i: int| 0 <= i < pre.len() && (#[trigger] pre[i]).spec_code() == j;
                    assert(post[i] == pre[i]);
                }
                if mentions(post, j) && j != c {
                    let i = choose|i: int| 0 <= i < post.len() && (#[trigger] post[i]).spec_code() == j;
                    assert(pre[i] == post[i]);
                }
                if j == c {
                    assert(post[k as int] == event_types@[k as int]);
                }
            }
            k = k + 1;
        }
        assert(event_types@.take(event_types@.len() as int) == event_types@);
    }
    assert(selected@ =~= toggled_errors(orig, event_types@));
}

/// Selector of the kinds selected in `sel`.
pub open spec fn is_selected(sel: Seq<bool>) -> spec_fn(EventType) -> bool {
    |t: EventType| sel[t.spec_code() as int]
}

/// How many kinds of a category are selected (the count the filter panel
/// shows beside the category's name).
pub fn selected_count(selected: &Vec<bool>, event_types: &[EventType]) -> (r: usize)
    requires
        fits(event_types@, selected@.len()),
    ensures
        r == event_types@.filter(is_selected(selected@)).len(),
{
    let ghost pred = is_selected(selected@);
    let mut n: usize = 0;
    let mut k: usize = 0;
    while k < event_types.len()
        invariant
            k <= event_types.len(),
            fits(event_types@, selected@.len()),
            pred == is_selected(selected@),
            n == event_types@.take(k as int).filter(pred).len(),
            n <= k,
        decreases event_types.len() - k,
    {
        let et = event_types[k];
        proof {
            lemma_filter_push(event_types@.take(k as int), et, pred);
            assert(event_types@.take(k + 1) =~= event_types@.take(k as int).push(et));
        }
        if selected[et.idx()] {
            n = n + 1;
        }
        k = k + 1;
    }
    assert(event_types@.take(event_types@.len() as int) =~= event_types@);
    n
}

/// Whether a category is in the "errors only" state: it has at least one
/// failure kind and exactly its failure kinds are selected.
pub fn is_errors_only(selected: &Vec<bool>, event_types: &[EventType]) -> (r: bool)
    requires
        fits(event_types@, selected@.len()),
    ensures
        r == (has_error(event_types@) && errors_only_state(selected@, event_types@)),
{
    let mut any = false;
    let mut only = true;
    let mut k: usize = 0;
    while k < event_types.len()
        invariant
            k <= event_types.len(),
            fits(event_types@, selected@.len()),
            any == exists|i: int| 0 <= i < k && is_error_kind(#[trigger] event_types@[i]),
            only == forall|i: int| 0 <= i < k ==> selected@[(#[trigger] event_types@[i]).spec_code() as int] == is_error_kind(event_types@[i]),
        decreases event_types.len() - k,
    {
        let et = event_types[k];
        let e = is_error_event(et);
        if e {
            any = true;
        }
        if selected[et.idx()] != e {
            only = false;
        }
        k = k + 1;
    }
    any && only
}

/// Keeps selected only the kinds listed in `keep`; every other kind is
/// deselected. Kinds in `keep` that were deselected stay deselected.
pub fn narrow_keep_only(selected: &mut Vec<bool>, keep: &[EventType])
    ensures
        final(selected)@ == kept_only(old(selected)@, keep@),
        final(selected)@.len() == old(selected)@.len(),
        forall|j: int| 0 <= j < old(selected)@.len() ==> #[trigger] final(selected)@[j] == (old(selected)@[j] && mentions(keep@, j)),
{
    let ghost orig = selected@;
    let mut i: usize = 0;
    while i < selected.len()
        invariant
            i <= selected@.len(),
            selected@.len() == orig.len(),
            forall|j: int| 0 <= j < i ==> #[trigger] selected@[j] == (orig[j] && mentions(keep@, j)),
            forall|j: int| i <= j < orig.len() ==> #[trigger] selected@[j] == orig[j],
        decreases orig.len() - i,
    {
        let mut found = false;
        let mut k: usize = 0;
        while k < keep.len()
            invariant
                k <= keep.len(),
                found == exists|m: int| 0 <= m < k && (#[trigger] keep@[m]).spec_code() == i,
            decreases keep.len() - k,
        {
            if keep[k].idx() == i {
                found = true;
            }
            k = k + 1;
        }
        if !found {
            selected.set(i, false);
        }
        i = i + 1;
    }
    assert(selected@ =~= kept_only(orig, keep@));
}

/// Deselects every kind listed in `remove`; other kinds keep their selection.
pub fn narrow_remove(selected: &mut Vec<bool>, remove: &[EventType])
    requires
        fits(remove@, old(selected)@.len()),
    ensures
        final(selected)@ == removed(old(selected)@, remove@),
        final(selected)@.len() == old(selected)@.len(),
        forall|j: int| 0 <= j < old(selected)@.len() ==> #[trigger] final(selected)@[j] == (old(selected)@[j] && !mentions(remove@, j)),
{
    let ghost orig = selected@;
    set_all(selected, remove, false);
    assert forall|j: int| 0 <= j < orig.len() implies #[trigger] selected@[j] == (orig[j] && !mentions(remove@, j)) by {}
    assert(selected@ =~= removed(orig, remove@));
}

} // verus!

verus! {

/// Length of the default selection: one entry per code below 200.
pub const DEFAULT_SELECTION_LEN: usize = 200;

/// Every code below 200 that names a failure kind.
proof fn lemma_error_codes_below_200(t: EventType)
    ensures
        is_error_kind(t) ==> t.spec_code() < 200,
{
}

/// The failure list holds a kind with code `j` exactly when `j` names a
/// failure kind.
proof fn lemma_mentions_errors(errs: Seq<EventType>, j: int)
    requires
        errs == kinds_where(error_kinds()),
    ensures
        mentions(errs, j) == code_is_error(j),
{
    if mentions(errs, j) {
        let i = choose|i: int| 0 <= i < errs.len() && (#[trigger] errs[i]).spec_code() == j;
        lemma_kinds_where(error_kinds(), errs[i]);
        assert(errs.contains(errs[i]));
        lemma_decode_code(errs[i]);
    }
    if code_is_error(j) {
        let t = decode_event_type(j as u8).unwrap();
        lemma_decode_sound(j as u8);
        lemma_kinds_where(error_kinds(), t);
        let i = choose|i: int| 0 <= i < errs.len() && errs[i] == t;
        assert(errs[i].spec_code() == j);
    }
}

/// Sets every entry of `selected` to `v`.
fn fill(selected: &mut Vec<bool>, v: bool)
    ensures
        final(selected)@.len() == old(selected)@.len(),
        forall|j: int| 0 <= j < old(selected)@.len() ==> #[trigger] final(selected)@[j] == v,
{
    let ghost n = selected@.len();
    let mut i: usize = 0;
    while i < selected.len()
        invariant
            i <= selected@.len(),
            selected@.len() == n,
            forall|j: int| 0 <= j < i ==> #[trigger] selected@[j] == v,
        decreases n - i,
    {
        selected.set(i, v);
        i = i + 1;
    }
}

/// The filter panel's state: one flag per event code, and whether the
/// "Errors" preset is active.
pub struct EventFilter {
    pub selected_events: Vec<bool>,
    pub errors_only: bool,
}

/// The default selection: every code below 200 enabled.
pub fn default_selected_events() -> (r: Vec<bool>)
    ensures
        r@.len() == DEFAULT_SELECTION_LEN,
        forall|j: int| 0 <= j < DEFAULT_SELECTION_LEN ==> #[trigger] r@[j],
{
    let mut v: Vec<bool> = Vec::new();
    let mut i: usize = 0;
    while i < DEFAULT_SELECTION_LEN
        invariant
            i <= DEFAULT_SELECTION_LEN,
            v@.len() == i,
            forall|j: int| 0 <= j < i ==> #[trigger] v@[j],
        decreases DEFAULT_SELECTION_LEN - i,
    {
        v.push(true);
        i = i + 1;
    }
    v
}

impl EventFilter {
    /// Every event enabled, "Errors" preset off.
    pub fn new() -> (r: EventFilter)
        ensures
            r.selected_events@.len() == DEFAULT_SELECTION_LEN,
            forall|j: int| 0 <= j < DEFAULT_SELECTION_LEN ==> #[trigger] r.selected_events@[j],
            !r.errors_only,
    {
        EventFilter { selected_events: default_selected_events(), errors_only: false }
    }

    /// "Errors" preset: exactly the failure kinds are enabled.
    pub fn apply_errors_filter(&mut self)
        requires
            old(self).selected_events@.len() >= DEFAULT_SELECTION_LEN,
        ensures
            final(self).selected_events@.len() == old(self).selected_events@.len(),
            forall|j: int| 0 <= j < old(self).selected_events@.len() ==> #[trigger] final(self).selected_events@[j]
                == code_is_error(j),
            final(self).errors_only,
    {
        fill(&mut self.selected_events, false);
        let errs = error_event_types();
        proof {
            assert forall|i: int| 0 <= i < errs@.len() implies (#[trigger] errs@[i]).spec_code() < self.selected_events@.len() by {
                lemma_kinds_where(error_kinds(), errs@[i]);
                assert(errs@.contains(errs@[i]));
                lemma_error_codes_below_200(errs@[i]);
            }
        }
        set_all(&mut self.selected_events, errs.as_slice(), true);
        proof {
            assert forall|j: int| 0 <= j < self.selected_events@.len() implies #[trigger] self.selected_events@[j]
                == code_is_error(j) by {
                lemma_mentions_errors(errs@, j);
            }
        }
        self.errors_only = true;
    }

    /// "All" preset: every code enabled, "Errors" preset off.
    pub fn apply_all_filter(&mut self)
        ensures
            final(self).selected_events@.len() == old(self).selected_events@.len(),
            forall|j: int| 0 <= j < old(self).selected_events@.len() ==> #[trigger] final(self).selected_events@[j],
            !final(self).errors_only,
    {
        fill(&mut self.selected_events, true);
        self.errors_only = false;
    }

    /// "None" preset: every code disabled, "Errors" preset off.
    pub fn select_none(&mut self)
        ensures
            final(self).selected_events@.len() == old(self).selected_events@.len(),
            forall|j: int| 0 <= j < old(self).selected_events@.len() ==> !#[trigger] final(self).selected_events@[j],
            !final(self).errors_only,
    {
        fill(&mut self.selected_events, false);
        self.errors_only = false;
    }

    /// Solo a category: exactly its kinds are enabled.
    pub fn solo_category(&mut self, event_types: &[EventType])
        requires
            fits(event_types@, old(self).selected_events@.len()),
        ensures
            final(self).selected_events@.len() == old(self).selected_events@.len(),
            forall|j: int| 0 <= j < old(self).selected_events@.len() ==> #[trigger] final(self).selected_events@[j]
                == mentions(event_types@, j),
            final(self).errors_only == old(self).errors_only,
    {
        fill(&mut self.selected_events, false);
        set_all(&mut self.selected_events, event_types, true);
    }

    /// The selection as a 256-bit mask (four 64-bit words): bit `t` is set
    /// exactly when code `t` is enabled. Entries past code 255 must be off.
    pub fn build_filter_bitfield(&self) -> (r: [u64; 4])
        requires
            forall|j: int| 256 <= j < self.selected_events@.len() ==> !#[trigger] self.selected_events@[j],
        ensures
            forall|t: nat| t < 256 ==> #[trigger] mask_bit(r, t) == (t < self.selected_events@.len() && self.selected_events@[t as int]),
    {
        let mut bitfield: [u64; 4] = [0u64; 4];
        proof {
            assert forall|t: nat| t < 256 implies !#[trigger] mask_bit(bitfield, t) by {
                lemma_full_and_empty((t % 64) as u64);
            }
        }
        let mut i: usize = 0;
        while i < self.selected_events.len()
            invariant
                i <= self.selected_events@.len(),
                forall|j: int| 256 <= j < self.selected_events@.len() ==> !#[trigger] self.selected_events@[j],
                forall|t: nat| t < 256 ==> #[trigger] mask_bit(bitfield, t) == (t < i && self.selected_events@[t as int]),
            decreases self.selected_events@.len() - i,
        {
            if self.selected_events[i] {
                let idx = i / 64;
                let bit = (i % 64) as u64;
                let ghost before = bitfield;
                bitfield[idx] = bitfield[idx] | (1u64 << bit);
                proof {
                    assert forall|t: nat| t < 256 implies #[trigger] mask_bit(bitfield, t) == (t < i + 1 && self.selected_events@[t as int]) by {
                        assert(mask_bit(before, t) == (t < i && self.selected_events@[t as int]));
                        if t / 64 == idx as nat {
                            lemma_set_bit(before[idx as int], bit, (t % 64) as u64);
                            assert((t % 64 == bit as nat) <==> t == i as nat);
                        } else {
                            assert(t != i as nat);
                            assert(bitfield[(t / 64) as int] == before[(t / 64) as int]);
                        }
                    }
                }
            }
            i = i + 1;
        }
        bitfield
    }
}

} // verus!

verus! {

/// A click on a category's tri-state checkbox deselects the whole category
/// when all of it was selected, and selects all of it otherwise.
pub proof fn law_toggle_all_flips_category(sel: Seq<bool>, ts: Seq<EventType>)
    requires
        fits(ts, sel.len()),
    ensures
        all_on(sel, ts) ==> none_on(toggled_all(sel, ts), ts),
        !all_on(sel, ts) ==> all_on(toggled_all(sel, ts), ts),
{
    let r = toggled_all(sel, ts);
    assert forall|i: int| 0 <= i < ts.len() implies r[(#[trigger] ts[i]).spec_code() as int] == !all_on(sel, ts) by {
        assert(mentions(ts, ts[i].spec_code() as int));
    }
}

/// A click on a category's errors checkbox selects the whole category when it
/// showed exactly its failure kinds, and otherwise leaves exactly its failure
/// kinds selected.
pub proof fn law_toggle_errors_alternates(sel: Seq<bool>, ts: Seq<EventType>)
    requires
        fits(ts, sel.len()),
    ensures
        errors_only_state(sel, ts) ==> all_on(toggled_errors(sel, ts), ts),
        !errors_only_state(sel, ts) ==> errors_only_state(toggled_errors(sel, ts), ts),
{
    let r = toggled_errors(sel, ts);
    assert forall|i: int| 0 <= i < ts.len() implies r[(#[trigger] ts[i]).spec_code() as int]
        == (errors_only_state(sel, ts) || is_error_kind(ts[i])) by {
        assert(mentions(ts, ts[i].spec_code() as int));
        lemma_decode_code(ts[i]);
    }
}

/// Narrowing never enables a kind, and narrowing twice to the same set
/// changes nothing more.
pub proof fn law_narrowing_only_disables(sel: Seq<bool>, keep: Seq<EventType>, remove: Seq<EventType>)
    ensures
        forall|j: int| 0 <= j < sel.len() ==> #[trigger] kept_only(sel, keep)[j] ==> sel[j],
        forall|j: int| 0 <= j < sel.len() ==> #[trigger] removed(sel, remove)[j] ==> sel[j],
        kept_only(kept_only(sel, keep), keep) == kept_only(sel, keep),
        removed(removed(sel, remove), remove) == removed(sel, remove),
{
    assert(kept_only(kept_only(sel, keep), keep) =~= kept_only(sel, keep));
    assert(removed(removed(sel, remove), remove) =~= removed(sel, remove));
}

} // verus!
