//! The staleness evaluator: decides whether a completed task spent too long
//! in its queue.

use vstd::prelude::*;

verus! {

/// How the age of a task is compared against the configured threshold.
///
/// The probe's historical comparison subtracts second-resolution unix
/// timestamps and compares the raw difference against a threshold configured
/// in milliseconds, without converting units; that behaviour is kept
/// available as [`StalenessUnits::Literal`]. The documented intent — "a task
/// is old if its age exceeds the threshold" with both sides in milliseconds —
/// is [`StalenessUnits::Corrected`]. The caller selects which semantics a run
/// uses, so both stay observable.
#[derive(Debug, Clone, Copy, PartialEq, Eq, Structural)]
pub enum StalenessUnits {
    /// Compare the age in seconds directly against the millisecond threshold.
    Literal,
    /// Convert the age to milliseconds before comparing.
    Corrected,
}

/// A task is old when its age — the time from enqueue to now — strictly
/// exceeds the threshold; at exact equality it is not old.
pub open spec fn spec_is_old(
    enqueued_at: int,
    now: int,
    threshold_ms: int,
    units: StalenessUnits,
) -> bool {
    match units {
        StalenessUnits::Literal => now - enqueued_at > threshold_ms,
        StalenessUnits::Corrected => (now - enqueued_at) * 1000 > threshold_ms,
    }
}

/// Decides whether a task enqueued at `enqueued_at` (unix seconds) is old at
/// `now` (unix seconds), given a threshold in milliseconds.
pub fn is_old(enqueued_at: i64, now: i64, threshold_ms: i64, units: StalenessUnits) -> (r: bool)
    ensures
        r == spec_is_old(enqueued_at as int, now as int, threshold_ms as int, units),
{
    let age_s: i128 = (now as i128) - (enqueued_at as i128);
    match units {
        StalenessUnits::Literal => age_s > threshold_ms as i128,
        StalenessUnits::Corrected => age_s * 1000 > threshold_ms as i128,
    }
}

/// Staleness is monotonic in age: with `now`, the threshold and the units
/// fixed, a task enqueued no later than another is at least as old, so if the
/// later-enqueued task is old, the earlier-enqueued one is old too.
pub proof fn lemma_is_old_monotonic(
    enqueued_at1: int,
    enqueued_at2: int,
    now: int,
    threshold_ms: int,
    units: StalenessUnits,
)
    requires
        enqueued_at1 <= enqueued_at2,
        spec_is_old(enqueued_at2, now, threshold_ms, units),
    ensures
        spec_is_old(enqueued_at1, now, threshold_ms, units),
{
}

/// Under the literal unit comparison, a task enqueued strictly after
/// `now - threshold_ms` is never old.
pub proof fn lemma_fresh_task_not_old(enqueued_at: int, now: int, threshold_ms: int)
    requires
        enqueued_at > now - threshold_ms,
    ensures
        !spec_is_old(enqueued_at, now, threshold_ms, StalenessUnits::Literal),
{
}

} // verus!
