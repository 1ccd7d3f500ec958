//! Stream diagnostics: counting processed events and the events the server
//! dropped, detected as gaps in its event ids.

use vstd::prelude::*;
use crate::ingest::ParseResult;

verus! {

/// Events the server dropped between two consecutive ids seen: the ids
/// strictly between them (none when ids do not increase).
pub open spec fn id_gap(last: u64, id: u64) -> u64 {
    if id > last + 1 { (id - last - 1) as u64 } else { 0 }
}

/// Running counts of processed and dropped events.
#[derive(Clone, Copy, Debug)]
pub struct DropTracker {
    /// Events processed since the last `take_second`.
    pub events_counter: u64,
    /// Dropped events detected since the last `take_second`.
    pub dropped_counter: u64,
    /// Dropped events detected in all.
    pub dropped_total: u64,
    /// Events processed before the last `take_second`.
    pub events_total: u64,
    /// Last server event id seen.
    pub last_event_id: Option<u64>,
}

impl DropTracker {
    /// Nothing counted yet.
    pub fn new() -> (r: Self)
        ensures
            r.events_counter == 0,
            r.dropped_counter == 0,
            r.dropped_total == 0,
            r.events_total == 0,
            r.last_event_id is None,
    {
        DropTracker { events_counter: 0, dropped_counter: 0, dropped_total: 0, events_total: 0, last_event_id: None }
    }

    /// Counts a processed event; an event id past the last one seen plus one
    /// counts the ids in between as dropped.
    pub fn track(&mut self, result: &ParseResult)
        requires
            old(self).events_counter < u64::MAX,
            match (result.event_id, old(self).last_event_id) {
                (Some(id), Some(last)) => old(self).dropped_counter + id_gap(last, id) <= u64::MAX
                    && old(self).dropped_total + id_gap(last, id) <= u64::MAX,
                _ => true,
            },
        ensures
            final(self).events_counter == old(self).events_counter + 1,
            final(self).events_total == old(self).events_total,
            match (result.event_id, old(self).last_event_id) {
                (Some(id), Some(last)) => {
                    &&& final(self).dropped_counter == old(self).dropped_counter + id_gap(last, id)
                    &&& final(self).dropped_total == old(self).dropped_total + id_gap(last, id)
                },
                _ => final(self).dropped_counter == old(self).dropped_counter && final(self).dropped_total
                    == old(self).dropped_total,
            },
            final(self).last_event_id == match result.event_id {
                Some(id) => Some(id),
                None => old(self).last_event_id,
            },
    {
        self.events_counter = self.events_counter + 1;
        if let Some(id) = result.event_id {
            if let Some(last) = self.last_event_id {
                let gap = id.saturating_sub(last).saturating_sub(1);
                if gap > 0 {
                    self.dropped_counter = self.dropped_counter + gap;
                    self.dropped_total = self.dropped_total + gap;
                }
            }
            self.last_event_id = Some(id);
        }
    }

    /// Ends a one-second window: returns the events and drops counted in it,
    /// adds its events to the running total, and starts a new window.
    pub fn take_second(&mut self) -> (r: (u64, u64))
        requires
            old(self).events_total + old(self).events_counter <= u64::MAX,
        ensures
            r == (old(self).events_counter, old(self).dropped_counter),
            final(self).events_counter == 0,
            final(self).dropped_counter == 0,
            final(self).events_total == old(self).events_total + old(self).events_counter,
            final(self).dropped_total == old(self).dropped_total,
            final(self).last_event_id == old(self).last_event_id,
    {
        let r = (self.events_counter, self.dropped_counter);
        self.events_total = self.events_total + self.events_counter;
        self.events_counter = 0;
        self.dropped_counter = 0;
        r
    }
}

/// Consecutive event ids mean nothing was dropped; a jump by `k + 1` means
/// `k` events were dropped.
pub proof fn law_gap_counts_missing_ids(last: u64, k: u64)
    requires
        last + k + 1 <= u64::MAX,
    ensures
        id_gap(last, (last + 1) as u64) == 0,
        id_gap(last, (last + k + 1) as u64) == k,
{
}

/// Unit in which the dashboard shows a count.
#[derive(Clone, Copy, PartialEq, Eq, Structural, Debug)]
pub enum CountScale {
    Units,
    Thousands,
    Millions,
}

/// Counts from a million on are shown in millions, from a thousand on in
/// thousands, and smaller ones as they are.
pub fn count_scale(n: u64) -> (r: CountScale)
    ensures
        r == if n >= 1_000_000 {
            CountScale::Millions
        } else if n >= 1_000 {
            CountScale::Thousands
        } else {
            CountScale::Units
        },
{
    if n >= 1_000_000 {
        CountScale::Millions
    } else if n >= 1_000 {
        CountScale::Thousands
    } else {
        CountScale::Units
    }
}

impl CountScale {
    /// What a count is divided by to be shown in this unit.
    pub fn divisor(self) -> (r: u64)
        ensures
            r == match self {
                CountScale::Units => 1u64,
                CountScale::Thousands => 1_000u64,
                CountScale::Millions => 1_000_000u64,
            },
    {
        match self {
            CountScale::Units => 1,
            CountScale::Thousands => 1_000,
            CountScale::Millions => 1_000_000,
        }
    }

    /// Suffix written after a count shown in this unit.
    pub fn suffix(self) -> (r: &'static str)
        ensures
            r@ == match self {
                CountScale::Units => ""@,
                CountScale::Thousands => "k"@,
                CountScale::Millions => "M"@,
            },
    {
        match self {
            CountScale::Units => "",
            CountScale::Thousands => "k",
            CountScale::Millions => "M",
        }
    }
}

} // verus!
