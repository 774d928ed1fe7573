//! The away-detection sweep: on each tick, a tracked break that has outlived
//! the configured threshold degrades to an explicit `away` status and the
//! presence record is cleared. A break that is never resumed must not show
//! "on break" forever.

use vstd::prelude::*;

use crate::presence::PresenceState;
use crate::publisher::StatusKind;

verus! {

/// The sweep period, in seconds.
pub const SWEEP_PERIOD_SECONDS: u64 = 15;

/// True when a sweep at `now` must fire the away transition: a break is
/// tracked and has lasted longer than the threshold.
pub open spec fn spec_sweep_fires(last_break: u64, now: u64, threshold_seconds: u64) -> bool {
    last_break != 0 && now > last_break + threshold_seconds
}

/// The away threshold in seconds for a configured number of minutes.
pub fn afk_threshold_seconds(minutes_till_afk: u64) -> (r: u64)
    requires
        minutes_till_afk <= u64::MAX / 60,
    ensures
        r == minutes_till_afk * 60,
{
    minutes_till_afk * 60
}

/// Run one sweep tick at wall-clock second `now`. When the tracked break has
/// outlived the threshold, clear the record and ask for an `away` publish;
/// otherwise change nothing and publish nothing.
pub fn sweep_tick(state: &mut PresenceState, now: u64, threshold_seconds: u64) -> (publish: Option<
    StatusKind,
>)
    ensures
        publish == if spec_sweep_fires(old(state).last_break_epoch_seconds, now, threshold_seconds) {
            Option::Some(StatusKind::Away)
        } else {
            Option::None::<StatusKind>
        },
        final(state).last_break_epoch_seconds == if spec_sweep_fires(
            old(state).last_break_epoch_seconds,
            now,
            threshold_seconds,
        ) {
            0u64
        } else {
            old(state).last_break_epoch_seconds
        },
{
    let last_break = state.load();
    if last_break == 0 {
        return Option::None;
    }
    if threshold_seconds <= u64::MAX - last_break && now > last_break + threshold_seconds {
        state.clear();
        Option::Some(StatusKind::Away)
    } else {
        proof {
            assert(!spec_sweep_fires(last_break, now, threshold_seconds));
        }
        Option::None
    }
}

/// A break that has outlived the threshold by a second degrades to `away` and
/// clears the record; one still a second short of it is left untouched, with
/// nothing published.
pub proof fn lemma_sweep_threshold(last_break: u64, now: u64, threshold_seconds: u64)
    requires
        last_break != 0,
    ensures
        last_break == now - (threshold_seconds + 1) ==> spec_sweep_fires(
            last_break,
            now,
            threshold_seconds,
        ),
        threshold_seconds >= 1 && last_break == now - (threshold_seconds - 1)
            ==> !spec_sweep_fires(last_break, now, threshold_seconds),
{
}

} // verus!
