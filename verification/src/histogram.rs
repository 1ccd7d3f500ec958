//! Per-validator event counters for the demo histogram.

use vstd::prelude::*;

verus! {

/// Two event counters (A and B) per validator.
pub struct EventHistogramData {
    pub events_a: Vec<u32>,
    pub events_b: Vec<u32>,
}

impl EventHistogramData {
    /// Counters for `num_validators` validators, all at zero.
    pub fn new(num_validators: usize) -> (r: Self)
        ensures
            r.events_a@ == Seq::new(num_validators as nat, |i: int| 0u32),
            r.events_b@ == Seq::new(num_validators as nat, |i: int| 0u32),
    {
        let mut a: Vec<u32> = Vec::new();
        let mut b: Vec<u32> = Vec::new();
        let mut i: usize = 0;
        while i < num_validators
            invariant
                i <= num_validators,
                a@ == Seq::new(i as nat, |k: int| 0u32),
                b@ == Seq::new(i as nat, |k: int| 0u32),
            decreases num_validators - i,
        {
            a.push(0);
            b.push(0);
            proof {
                assert(a@ =~= Seq::new((i + 1) as nat, |k: int| 0u32));
                assert(b@ =~= Seq::new((i + 1) as nat, |k: int| 0u32));
            }
            i = i + 1;
        }
        EventHistogramData { events_a: a, events_b: b }
    }

    /// One tick: validator `i` gets an A event when `hits_a[i]` and a B event
    /// when `hits_b[i]` (the caller draws these at random).
    pub fn tick(&mut self, hits_a: &[bool], hits_b: &[bool])
        requires
            old(self).events_b@.len() >= old(self).events_a@.len(),
            hits_a@.len() >= old(self).events_a@.len(),
            hits_b@.len() >= old(self).events_a@.len(),
            forall|i: int| 0 <= i < old(self).events_a@.len() && hits_a@[i] ==> #[trigger] old(self).events_a@[i] < u32::MAX,
            forall|i: int| 0 <= i < old(self).events_a@.len() && hits_b@[i] ==> #[trigger] old(self).events_b@[i] < u32::MAX,
        ensures
            final(self).events_a@.len() == old(self).events_a@.len(),
            final(self).events_b@.len() == old(self).events_b@.len(),
            forall|i: int| 0 <= i < old(self).events_a@.len() ==> #[trigger] final(self).events_a@[i] == old(self).events_a@[i]
                + if hits_a@[i] { 1int } else { 0int },
            forall|i: int| 0 <= i < old(self).events_b@.len() ==> #[trigger] final(self).events_b@[i] == old(self).events_b@[i]
                + if i < old(self).events_a@.len() && hits_b@[i] { 1int } else { 0int },
    {
        let n = self.events_a.len();
        let mut i: usize = 0;
        while i < n
            invariant
                i <= n,
                n == old(self).events_a@.len(),
                self.events_a@.len() == n,
                self.events_b@.len() == old(self).events_b@.len(),
                old(self).events_b@.len() >= n,
                hits_a@.len() >= n,
                hits_b@.len() >= n,
                forall|j: int| 0 <= j < n && hits_a@[j] ==> #[trigger] old(self).events_a@[j] < u32::MAX,
                forall|j: int| 0 <= j < n && hits_b@[j] ==> #[trigger] old(self).events_b@[j] < u32::MAX,
                forall|j: int| 0 <= j < i ==> #[trigger] self.events_a@[j] == old(self).events_a@[j] + if hits_a@[j] { 1int } else { 0int },
                forall|j: int| i <= j < n ==> #[trigger] self.events_a@[j] == old(self).events_a@[j],
                forall|j: int| 0 <= j < i ==> #[trigger] self.events_b@[j] == old(self).events_b@[j] + if hits_b@[j] { 1int } else { 0int },
                forall|j: int| i <= j < self.events_b@.len() ==> #[trigger] self.events_b@[j] == old(self).events_b@[j],
            decreases n - i,
        {
            if hits_a[i] {
                let v = self.events_a[i];
                self.events_a.set(i, v + 1);
            }
            if hits_b[i] {
                let v = self.events_b[i];
                self.events_b.set(i, v + 1);
            }
            i = i + 1;
        }
    }
}

} // verus!
