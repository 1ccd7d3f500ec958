//! Colour schemas and the event-kind mask uploaded to the GPU.

use vstd::prelude::*;
use crate::bits::{lemma_full32, lemma_split_word, mask32_bit, mask_bit};
use crate::catalog::{category_of, event_categories, in_category, kinds_where, lemma_category_bound, lemma_kinds_where, NUM_CATEGORIES};
use crate::events::{decode_event_type, lemma_decode_code, lemma_decode_sound, EventType};

verus! {

/// Predefined colour schema for event categories and per-event palettes.
#[derive(Clone, Copy, PartialEq, Eq, Structural, Debug)]
pub enum ColorSchema {
    Vivid,
    Accessible,
    Pipeline,
    Monochrome,
}

impl ColorSchema {
    /// Every schema, in menu order.
    pub fn all() -> (r: Vec<ColorSchema>)
        ensures
            r@ == seq![ColorSchema::Vivid, ColorSchema::Accessible, ColorSchema::Pipeline, ColorSchema::Monochrome],
    {
        let mut v = Vec::new();
        v.push(ColorSchema::Vivid);
        v.push(ColorSchema::Accessible);
        v.push(ColorSchema::Pipeline);
        v.push(ColorSchema::Monochrome);
        v
    }

    /// Menu label of a schema.
    pub open spec fn label_text(self) -> Seq<char> {
        match self {
            ColorSchema::Vivid => "Vivid"@,
            ColorSchema::Accessible => "Accessible"@,
            ColorSchema::Pipeline => "Pipeline"@,
            ColorSchema::Monochrome => "Mono"@,
        }
    }

    /// Menu label of a schema.
    pub fn label(self) -> (r: &'static str)
        ensures
            r@ == self.label_text(),
    {
        match self {
            ColorSchema::Vivid => "Vivid",
            ColorSchema::Accessible => "Accessible",
            ColorSchema::Pipeline => "Pipeline",
            ColorSchema::Monochrome => "Mono",
        }
    }
}

impl Default for ColorSchema {
    fn default() -> (r: Self)
        ensures
            r == ColorSchema::Vivid,
    {
        ColorSchema::Vivid
    }
}

/// The event-kind mask as eight 32-bit words, the layout the shader reads.
#[derive(Clone, Copy, Debug)]
pub struct FilterBitfield {
    pub words: [u32; 8],
}

impl FilterBitfield {
    /// The same mask from four 64-bit words: each 64-bit word becomes its low
    /// half followed by its high half.
    pub fn from_u64_bitfield(bits: &[u64; 4]) -> (r: Self)
        ensures
            forall|i: int| 0 <= i < 4 ==> #[trigger] r.words[2 * i] == (bits[i] as u32),
            forall|i: int| 0 <= i < 4 ==> #[trigger] r.words[2 * i + 1] == ((bits[i] >> 32u64) as u32),
            forall|t: nat| t < 256 ==> #[trigger] mask32_bit(r.words, t) == mask_bit(*bits, t),
    {
        let mut words = [0u32; 8];
        let mut i: usize = 0;
        while i < 4
            invariant
                i <= 4,
                forall|k: int| 0 <= k < i ==> #[trigger] words[2 * k] == (bits[k] as u32),
                forall|k: int| 0 <= k < i ==> #[trigger] words[2 * k + 1] == ((bits[k] >> 32u64) as u32),
            decreases 4 - i,
        {
            let q = bits[i];
            words[i * 2] = q as u32;
            words[i * 2 + 1] = (q >> 32) as u32;
            i = i + 1;
        }
        let r = FilterBitfield { words };
        proof {
            assert forall|t: nat| t < 256 implies #[trigger] mask32_bit(r.words, t) == mask_bit(*bits, t) by {
                let k = t / 64;
                let w = bits[k as int];
                let c = (t % 32) as u32;
                lemma_split_word(w, c);
                if t % 64 < 32 {
                    assert(t / 32 == 2 * k);
                    assert(r.words[(2 * k) as int] == (w as u32));
                } else {
                    assert(t / 32 == 2 * k + 1);
                    assert(r.words[(2 * k + 1) as int] == ((w >> 32u64) as u32));
                    assert(t % 64 == (t % 32) + 32);
                }
            }
        }
        r
    }

    /// Every event kind enabled.
    pub fn all_enabled() -> (r: Self)
        ensures
            forall|i: int| 0 <= i < 8 ==> #[trigger] r.words[i] == u32::MAX,
            forall|t: nat| t < 256 ==> #[trigger] mask32_bit(r.words, t),
    {
        let r = FilterBitfield { words: [u32::MAX; 8] };
        proof {
            assert forall|t: nat| t < 256 implies #[trigger] mask32_bit(r.words, t) by {
                lemma_full32((t % 32) as u32);
            }
        }
        r
    }
}

} // verus!

verus! {

/// How one event kind is coloured on the ring.
#[derive(Clone, Copy, PartialEq, Eq, Structural, Debug)]
pub enum ColorSlot {
    /// Not drawn (transparent).
    Off,
    /// The colour of category `c` in the active schema.
    Category(usize),
    /// Colour `index` of a distinct palette of `count` colours.
    Palette(usize, usize),
}

/// Whether kind `t` is enabled in the selection.
pub open spec fn kind_enabled(sel: Seq<bool>, t: EventType) -> bool {
    t.spec_code() < sel.len() && sel[t.spec_code() as int]
}

/// Whether some kind of category `c` is enabled.
pub open spec fn category_active(sel: Seq<bool>, c: nat) -> bool {
    exists|i: int| 0 <= i < kinds_where(in_category(c)).len() && kind_enabled(sel, #[trigger] kinds_where(in_category(c))[i])
}

/// The active categories below `n`, in order.
pub open spec fn active_below(sel: Seq<bool>, n: nat) -> Seq<nat>
    decreases n,
{
    if n == 0 {
        Seq::empty()
    } else {
        let prev = active_below(sel, (n - 1) as nat);
        if category_active(sel, (n - 1) as nat) { prev.push((n - 1) as nat) } else { prev }
    }
}

/// The one active category, when exactly one category has an enabled kind.
pub open spec fn single_active(sel: Seq<bool>) -> Option<nat> {
    let a = active_below(sel, NUM_CATEGORIES as nat);
    if a.len() == 1 { Some(a[0]) } else { None }
}

/// Selector of the enabled kinds.
pub open spec fn enabled_in(sel: Seq<bool>) -> spec_fn(EventType) -> bool {
    |t: EventType| kind_enabled(sel, t)
}

/// The enabled kinds of category `c`, in ascending code order.
pub open spec fn enabled_kinds(sel: Seq<bool>, c: nat) -> Seq<EventType> {
    kinds_where(in_category(c)).filter(enabled_in(sel))
}

/// Filtering keeps strictly ascending codes ascending.
proof fn lemma_filter_ascending(s: Seq<EventType>, pred: spec_fn(EventType) -> bool)
    requires
        forall|i: int, j: int| 0 <= i < j < s.len() ==> (#[trigger] s[i]).spec_code() < (#[trigger] s[j]).spec_code(),
    ensures
        forall|i: int, j: int|
            0 <= i < j < s.filter(pred).len() ==> (#[trigger] s.filter(pred)[i]).spec_code() < (#[trigger] s.filter(pred)[j]).spec_code(),
        forall|i: int| 0 <= i < s.filter(pred).len() ==> s.contains(#[trigger] s.filter(pred)[i]),
    decreases s.len(),
{
    reveal(Seq::filter);
    s.filter_lemma(pred);
    if s.len() > 0 {
        let p = s.drop_last();
        assert forall|i: int, j: int| 0 <= i < j < p.len() implies (#[trigger] p[i]).spec_code() < (#[trigger] p[j]).spec_code() by {
            assert(p[i] == s[i] && p[j] == s[j]);
        }
        lemma_filter_ascending(p, pred);
        let f = p.filter(pred);
        if pred(s.last()) {
            assert(s.filter(pred) == f.push(s.last()));
            assert forall|i: int| 0 <= i < f.len() implies (#[trigger] f[i]).spec_code() < s.last().spec_code() by {
                assert(p.contains(f[i]));
                let k = choose|k: int| 0 <= k < p.len() && #[trigger] p[k] == f[i];
                assert(s[k] == f[i]);
                assert(s[s.len() - 1] == s.last());
            }
        }
    }
}

/// The categories with at least one enabled kind, in display order.
pub fn active_categories(selected: &Vec<bool>) -> (active: Vec<usize>)
    ensures
        active@.len() == active_below(selected@, NUM_CATEGORIES as nat).len(),
        forall|i: int| 0 <= i < active@.len() ==> active@[i] as nat == #[trigger] active_below(selected@, NUM_CATEGORIES as nat)[i],
        forall|i: int| 0 <= i < active@.len() ==> #[trigger] active@[i] < NUM_CATEGORIES,
{
    let cats = event_categories();
    let mut active: Vec<usize> = Vec::new();
    let mut c: usize = 0;
    while c < NUM_CATEGORIES
        invariant
            c <= NUM_CATEGORIES,
            cats@.len() == NUM_CATEGORIES,
            forall|i: int| 0 <= i < NUM_CATEGORIES ==> (#[trigger] cats@[i]).event_types@ == kinds_where(in_category(i as nat)),
            active@.len() == active_below(selected@, c as nat).len(),
            forall|i: int| 0 <= i < active@.len() ==> #[trigger] active@[i] < c,
            forall|i: int| 0 <= i < active@.len() ==> active@[i] as nat == #[trigger] active_below(selected@, c as nat)[i],
        decreases NUM_CATEGORIES - c,
    {
        let ts = &cats[c].event_types;
        let ghost lc = kinds_where(in_category(c as nat));
        let mut any = false;
        let mut m: usize = 0;
        while m < ts.len()
            invariant
                m <= ts@.len(),
                ts@ == lc,
                lc == kinds_where(in_category(c as nat)),
                any == exists|i: int| 0 <= i < m && kind_enabled(selected@, #[trigger] lc[i]),
            decreases ts@.len() - m,
        {
            let code = ts[m].idx();
            if code < selected.len() && selected[code] {
                any = true;
            }
            m = m + 1;
        }
        let ghost before = active@;
        if any {
            active.push(c);
        }
        proof {
            assert(any == category_active(selected@, c as nat));
            let ab = active_below(selected@, (c + 1) as nat);
            assert forall|i: int| 0 <= i < active@.len() implies active@[i] as nat == #[trigger] ab[i] by {
                if i < before.len() {
                    assert(active@[i] == before[i]);
                }
            }
            assert forall|i: int| 0 <= i < active@.len() implies #[trigger] active@[i] < c + 1 by {
                if i < before.len() {
                    assert(active@[i] == before[i]);
                }
            }
        }
        c = c + 1;
    }
    active
}

/// How each event code is coloured (one entry per code). When exactly one
/// category has enabled kinds, its enabled kinds get distinct palette colours
/// in code order and everything else is off; otherwise every kind gets its
/// category's colour and codes naming no kind are off.
pub fn color_plan(selected: &Vec<bool>) -> (r: Vec<ColorSlot>)
    ensures
        r@.len() == 256,
        match single_active(selected@) {
            Some(c) => {
                let e = enabled_kinds(selected@, c);
                &&& forall|i: int| 0 <= i < e.len() ==> r@[(#[trigger] e[i]).spec_code() as int] == ColorSlot::Palette(i as usize, e.len() as usize)
                &&& forall|code: int| 0 <= code < 256 && (forall|i: int| 0 <= i < e.len() ==> (#[trigger] e[i]).spec_code() != code) ==> #[trigger] r@[code] == ColorSlot::Off
            },
            None => forall|code: int| 0 <= code < 256 ==> #[trigger] r@[code] == match decode_event_type(code as u8) {
                Some(t) => ColorSlot::Category(category_of(t) as usize),
                None => ColorSlot::Off,
            },
        },
{
    let cats = event_categories();
    let active = active_categories(selected);
    let mut plan: Vec<ColorSlot> = Vec::new();
    let mut z: usize = 0;
    while z < 256
        invariant
            z <= 256,
            plan@.len() == z,
            forall|j: int| 0 <= j < z ==> #[trigger] plan@[j] == ColorSlot::Off,
        decreases 256 - z,
    {
        plan.push(ColorSlot::Off);
        z = z + 1;
    }
    if active.len() == 1 {
        let c = active[0];
        let ghost lc = kinds_where(in_category(c as nat));
        let ghost pred = enabled_in(selected@);
        proof {
            assert(single_active(selected@) == Some(c as nat));
            lemma_kinds_where(in_category(c as nat), EventType::Dropped);
            lemma_filter_ascending(lc, pred);
        }
        let ts = &cats[c].event_types;
        let mut enabled: Vec<EventType> = Vec::new();
        let mut m: usize = 0;
        while m < ts.len()
            invariant
                m <= ts@.len(),
                ts@ == lc,
                pred == enabled_in(selected@),
                enabled@ == lc.take(m as int).filter(pred),
            decreases ts@.len() - m,
        {
            let t = ts[m];
            proof {
                crate::vring::lemma_filter_push(lc.take(m as int), t, pred);
                assert(lc.take(m + 1) =~= lc.take(m as int).push(t));
            }
            let code = t.idx();
            if code < selected.len() && selected[code] {
                enabled.push(t);
            }
            m = m + 1;
        }
        proof {
            assert(lc.take(lc.len() as int) =~= lc);
        }
        let ghost e = enabled@;
        let n = enabled.len();
        let mut i: usize = 0;
        while i < n
            invariant
                i <= n,
                n == e.len(),
                enabled@ == e,
                plan@.len() == 256,
                forall|a: int, b: int| 0 <= a < b < e.len() ==> (#[trigger] e[a]).spec_code() < (#[trigger] e[b]).spec_code(),
                forall|j: int| 0 <= j < i ==> plan@[(#[trigger] e[j]).spec_code() as int] == ColorSlot::Palette(j as usize, n),
                forall|code: int| 0 <= code < 256 && (forall|j: int| 0 <= j < i ==> (#[trigger] e[j]).spec_code() != code) ==> #[trigger] plan@[code] == ColorSlot::Off,
            decreases n - i,
        {
            let code = enabled[i].idx();
            let ghost before = plan@;
            plan.set(code, ColorSlot::Palette(i, n));
            proof {
                assert forall|j: int| 0 <= j < i + 1 implies plan@[(#[trigger] e[j]).spec_code() as int] == ColorSlot::Palette(j as usize, n) by {
                    if j < i {
                        assert(e[j].spec_code() < e[i as int].spec_code());
                    }
                }
            }
            i = i + 1;
        }
        plan
    } else {
        proof {
            assert(single_active(selected@) is None);
        }
        let mut c: usize = 0;
        while c < NUM_CATEGORIES
            invariant
                c <= NUM_CATEGORIES,
                cats@.len() == NUM_CATEGORIES,
                forall|i: int| 0 <= i < NUM_CATEGORIES ==> (#[trigger] cats@[i]).event_types@ == kinds_where(in_category(i as nat)),
                plan@.len() == 256,
                forall|code: int| 0 <= code < 256 ==> #[trigger] plan@[code] == match decode_event_type(code as u8) {
                    Some(t) => if category_of(t) < c { ColorSlot::Category(category_of(t) as usize) } else { ColorSlot::Off },
                    None => ColorSlot::Off,
                },
            decreases NUM_CATEGORIES - c,
        {
            let ts = &cats[c].event_types;
            let ghost lc = kinds_where(in_category(c as nat));
            let mut m: usize = 0;
            while m < ts.len()
                invariant
                    m <= ts@.len(),
                    ts@ == lc,
                    lc == kinds_where(in_category(c as nat)),
                    c < NUM_CATEGORIES,
                    plan@.len() == 256,
                    forall|code: int| 0 <= code < 256 ==> #[trigger] plan@[code] == match decode_event_type(code as u8) {
                        Some(t) => if category_of(t) < c || (category_of(t) == c && lc.take(m as int).contains(t)) {
                            ColorSlot::Category(category_of(t) as usize)
                        } else {
                            ColorSlot::Off
                        },
                        None => ColorSlot::Off,
                    },
                decreases ts@.len() - m,
            {
                let t = ts[m];
                let code = t.idx();
                let ghost before = plan@;
                proof {
                    lemma_kinds_where(in_category(c as nat), t);
                    assert(lc.contains(t));
                    lemma_decode_code(t);
                    lemma_category_bound(t);
                }
                plan.set(code, ColorSlot::Category(c));
                proof {
                    assert forall|code2: int| 0 <= code2 < 256 implies #[trigger] plan@[code2] == match decode_event_type(code2 as u8) {
                        Some(u) => if category_of(u) < c || (category_of(u) == c && lc.take(m + 1).contains(u)) {
                            ColorSlot::Category(category_of(u) as usize)
                        } else {
                            ColorSlot::Off
                        },
                        None => ColorSlot::Off,
                    } by {
                        lemma_decode_sound(code2 as u8);
                        match decode_event_type(code2 as u8) {
                            Some(u) => {
                                if lc.take(m as int).contains(u) {
                                    let k = choose|k: int| 0 <= k < m && #[trigger] lc.take(m as int)[k] == u;
                                    assert(lc.take(m + 1)[k] == u);
                                }
                                if lc.take(m + 1).contains(u) && u != t {
                                    let k = choose|k: int| 0 <= k < m + 1 && #[trigger] lc.take(m + 1)[k] == u;
                                    assert(k != m);
                                    assert(lc.take(m as int)[k] == u);
                                }
                                if u == t {
                                    assert(lc.take(m + 1)[m as int] == t);
                                }
                            }
                            None => {}
                        }
                    }
                }
                m = m + 1;
            }
            proof {
                assert(lc.take(lc.len() as int) =~= lc);
                assert forall|code: int| 0 <= code < 256 implies #[trigger] plan@[code] == match decode_event_type(code as u8) {
                    Some(t) => if category_of(t) < c + 1 { ColorSlot::Category(category_of(t) as usize) } else { ColorSlot::Off },
                    None => ColorSlot::Off,
                } by {
                    match decode_event_type(code as u8) {
                        Some(t) => {
                            lemma_kinds_where(in_category(c as nat), t);
                        }
                        None => {}
                    }
                }
            }
            c = c + 1;
        }
        proof {
            assert forall|code: int| 0 <= code < 256 implies #[trigger] plan@[code] == match decode_event_type(code as u8) {
                Some(t) => ColorSlot::Category(category_of(t) as usize),
                None => ColorSlot::Off,
            } by {
                match decode_event_type(code as u8) {
                    Some(t) => {
                        lemma_category_bound(t);
                    }
                    None => {}
                }
            }
        }
        plan
    }
}

} // verus!
