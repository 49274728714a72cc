//! Live State: the single latest-reading record shared with every viewer.
//!
//! The record is overwritten in place; no history is kept.  `current_raw`
//! changes on every sample, while `current_bpm` and `last_updated` change
//! only when a beat is confirmed: the two field groups are updated by
//! separate operations, each of which leaves the other group untouched, so a
//! reader sees only values that were actually written.  The lock that guards
//! the record between tasks lives outside the library.

use vstd::prelude::*;

verus! {

/// The latest reading: the most recent confirmed rate, the most recent raw
/// amplitude, and the instant (epoch milliseconds) of the last confirmed
/// beat, `None` before the first one.
#[derive(Clone, Copy, Debug)]
pub struct SharedHeartRate {
    pub current_bpm: i32,
    pub current_raw: i32,
    pub last_updated: Option<u64>,
}

impl Default for SharedHeartRate {
    /// The all-zero record: no rate, no raw value, no beat on record.
    fn default() -> (r: SharedHeartRate)
        ensures
            r.current_bpm == 0,
            r.current_raw == 0,
            r.last_updated is None,
    {
        SharedHeartRate { current_bpm: 0, current_raw: 0, last_updated: None }
    }
}

impl SharedHeartRate {
    /// The record the process starts with: placeholder defaults, no beat yet.
    pub fn new() -> (r: SharedHeartRate)
        ensures
            r.current_bpm == 70,
            r.current_raw == 512,
            r.last_updated is None,
    {
        SharedHeartRate { current_bpm: 70, current_raw: 512, last_updated: None }
    }

    /// An independent copy of the record: never a live reference a caller
    /// could mutate.
    pub fn read(&self) -> (r: SharedHeartRate)
        ensures
            r == *self,
    {
        *self
    }

    /// Record a new raw amplitude.  Only the raw field changes: the rate
    /// group is untouched.
    pub fn write_raw(&mut self, v: i32)
        ensures
            final(self).current_raw == v,
            final(self).current_bpm == old(self).current_bpm,
            final(self).last_updated == old(self).last_updated,
    {
        self.current_raw = v;
    }

    /// Record a confirmed beat.  Only the rate group changes: the raw field
    /// is untouched.
    pub fn write_beat(&mut self, bpm: i32, instant_ms: u64)
        ensures
            final(self).current_bpm == bpm,
            final(self).last_updated == Some(instant_ms),
            final(self).current_raw == old(self).current_raw,
    {
        self.current_bpm = bpm;
        self.last_updated = Some(instant_ms);
    }
}

} // verus!
