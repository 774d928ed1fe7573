//! The shared presence record: the wall-clock second at which the most recent
//! break began, with 0 meaning "no break currently tracked".

use vstd::prelude::*;

verus! {

/// Records when the tracked work session last stopped. A value of 0 means no
/// break is currently tracked (never started or explicitly cleared); any
/// positive value is the wall-clock second at which the most recent stop
/// event was observed.
#[derive(Debug, Clone, Copy, PartialEq, Eq)]
pub struct PresenceState {
    pub last_break_epoch_seconds: u64,
}

impl PresenceState {
    /// A fresh generation starts with no break tracked.
    pub fn new() -> (s: Self)
        ensures
            s.last_break_epoch_seconds == 0,
    {
        PresenceState { last_break_epoch_seconds: 0 }
    }

    /// True when no break is currently tracked.
    pub open spec fn spec_is_idle(self) -> bool {
        self.last_break_epoch_seconds == 0
    }

    /// True when no break is currently tracked.
    pub fn is_idle(&self) -> (r: bool)
        ensures
            r == self.spec_is_idle(),
    {
        self.last_break_epoch_seconds == 0
    }

    /// Record that a break began at the given wall-clock second.
    pub fn record_break(&mut self, now: u64)
        ensures
            final(self).last_break_epoch_seconds == now,
    {
        self.last_break_epoch_seconds = now;
    }

    /// Clear the tracked break (work resumed, or the away transition fired).
    pub fn clear(&mut self)
        ensures
            final(self).last_break_epoch_seconds == 0,
    {
        self.last_break_epoch_seconds = 0;
    }

    /// Read the tracked break start.
    pub fn load(&self) -> (r: u64)
        ensures
            r == self.last_break_epoch_seconds,
    {
        self.last_break_epoch_seconds
    }
}

} // verus!
