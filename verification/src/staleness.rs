use vstd::prelude::*;

verus! {

/// Seconds in one day: staleness thresholds are given in days.
pub const SECS_PER_DAY: u64 = 86400;

/// Age of a commit made at epoch second `last_commit`, observed at epoch
/// second `now`. Never negative: a timestamp from the future (clock skew)
/// counts as age zero, not as an error.
pub open spec fn age_secs_spec(now: int, last_commit: int) -> int {
    if last_commit <= now {
        now - last_commit
    } else {
        0
    }
}

/// A worktree is stale once its age reaches the threshold, with the
/// threshold expressed in whole days.
pub open spec fn is_stale_spec(age_secs: int, threshold_days: int) -> bool {
    age_secs >= threshold_days * 86400
}

/// Age in seconds of the last commit, observed at `now`.
pub fn age_secs(now: u64, last_commit: u64) -> (r: u64)
    ensures
        r == age_secs_spec(now as int, last_commit as int),
{
    if last_commit <= now {
        now - last_commit
    } else {
        0
    }
}

/// Whether an age in seconds reaches a threshold in days.
pub fn is_stale(age_secs: u64, threshold_days: u64) -> (r: bool)
    ensures
        r == is_stale_spec(age_secs as int, threshold_days as int),
{
    if threshold_days > u64::MAX / SECS_PER_DAY {
        proof {
            assert(threshold_days * 86400 > u64::MAX) by (nonlinear_arith)
                requires
                    threshold_days > u64::MAX / 86400,
            ;
        }
        false
    } else {
        proof {
            assert(threshold_days * 86400 <= u64::MAX) by (nonlinear_arith)
                requires
                    threshold_days <= u64::MAX / 86400,
            ;
        }
        age_secs >= threshold_days * SECS_PER_DAY
    }
}

/// Age in whole days, for reporting.
pub fn whole_days(age_secs: u64) -> (r: u64)
    ensures
        r == age_secs as int / 86400,
{
    age_secs / SECS_PER_DAY
}

/// Staleness monotonicity law: of two worktrees observed at the same
/// instant, the one with the older last commit has the strictly larger
/// age. Requires both timestamps to lie at or before the observation
/// instant; two future timestamps both clamp to age zero.
pub proof fn lemma_staleness_monotonic(now: int, t1: int, t2: int)
    requires
        t1 < t2 <= now,
    ensures
        age_secs_spec(now, t1) > age_secs_spec(now, t2),
{
}

} // verus!
