use vstd::prelude::*;
use crate::error::KayfabeError;
use crate::safety::{blocked_reasons_spec, safe_to_remove, SafetyCheck};
use crate::staleness::{is_stale, is_stale_spec, whole_days};
use crate::worktree::WorktreeInfo;

verus! {

broadcast use vstd::seq_lib::lemma_seq_contains_after_push;

/// Listing badges switch from "aged" to "stale" at this many days.
pub const LIST_STALE_BADGE_DAYS: u64 = 14;

/// A stale worktree that cleanup would remove: old enough, and either safe
/// to remove or explicitly included despite unmerged work.
pub open spec fn is_candidate_spec(info: WorktreeInfo, older_than: int, include_unmerged: bool) -> bool {
    &&& !info.is_main
    &&& info.staleness_secs matches Some(age) && is_stale_spec(age as int, older_than)
    &&& (safe_to_remove(info.safety.has_uncommitted_changes, info.safety.has_unmerged_commits)
        || include_unmerged)
}

/// A stale worktree that cleanup reports but leaves alone: old enough, but
/// unsafe and not included.
pub open spec fn is_skipped_spec(info: WorktreeInfo, older_than: int, include_unmerged: bool) -> bool {
    &&& !info.is_main
    &&& info.staleness_secs matches Some(age) && is_stale_spec(age as int, older_than)
    &&& !safe_to_remove(info.safety.has_uncommitted_changes, info.safety.has_unmerged_commits)
    &&& !include_unmerged
}

/// A worktree cleanup passes over in silence: not yet stale, or without
/// any commit to date.
pub open spec fn is_fresh_spec(info: WorktreeInfo, older_than: int) -> bool {
    &&& !info.is_main
    &&& match info.staleness_secs {
        Some(age) => !is_stale_spec(age as int, older_than),
        None => true,
    }
}

/// Where one inspected worktree lands when cleanup partitions the set.
pub enum CleanupClass {
    /// The anchor checkout: never touched by cleanup.
    Anchor,
    /// Not yet stale (or without commits): silently excluded.
    Fresh,
    /// Stale and removable: reported, then removed unless this is a dry
    /// run.
    Candidate,
    /// Stale but blocked: reported as skipped, never removed.
    Skipped,
}

/// Assigns one inspected worktree its cleanup class.
pub fn classify_for_cleanup(info: &WorktreeInfo, older_than: u64, include_unmerged: bool) -> (r:
    CleanupClass)
    ensures
        info.is_main <==> r is Anchor,
        is_candidate_spec(*info, older_than as int, include_unmerged) <==> r is Candidate,
        is_skipped_spec(*info, older_than as int, include_unmerged) <==> r is Skipped,
        is_fresh_spec(*info, older_than as int) <==> r is Fresh,
{
    if info.is_main {
        CleanupClass::Anchor
    } else {
        match info.staleness_secs {
            Some(age) => {
                if is_stale(age, older_than) {
                    if (!info.safety.has_uncommitted_changes
                        && !info.safety.has_unmerged_commits) || include_unmerged {
                        CleanupClass::Candidate
                    } else {
                        CleanupClass::Skipped
                    }
                } else {
                    CleanupClass::Fresh
                }
            },
            None => CleanupClass::Fresh,
        }
    }
}

/// Cleanup partition completeness law: for any inspected worktree and any
/// threshold, a non-anchor worktree lands in exactly one of candidate,
/// skipped, and fresh.
pub proof fn lemma_cleanup_partition(info: WorktreeInfo, older_than: int, include_unmerged: bool)
    requires
        !info.is_main,
    ensures
        is_candidate_spec(info, older_than, include_unmerged) || is_skipped_spec(
            info,
            older_than,
            include_unmerged,
        ) || is_fresh_spec(info, older_than),
        !(is_candidate_spec(info, older_than, include_unmerged) && is_skipped_spec(
            info,
            older_than,
            include_unmerged,
        )),
        !(is_candidate_spec(info, older_than, include_unmerged) && is_fresh_spec(
            info,
            older_than,
        )),
        !(is_skipped_spec(info, older_than, include_unmerged) && is_fresh_spec(info, older_than)),
{
}

/// The two sets cleanup reports before it mutates anything, as indices
/// into the inspected list.
pub struct CleanupPlan {
    /// Indices of the worktrees that would be removed.
    pub candidates: Vec<usize>,
    /// Indices of the stale-but-blocked worktrees.
    pub skipped: Vec<usize>,
}

/// Partitions the inspected worktrees for cleanup. Every index of the
/// input lands in the candidate list, in the skipped list, or in neither
/// (the anchor and the not-yet-stale); never in both.
pub fn plan_cleanup(infos: &Vec<WorktreeInfo>, older_than: u64, include_unmerged: bool) -> (r:
    CleanupPlan)
    ensures
        forall|i: usize|
            #![trigger r.candidates@.contains(i)]
            0 <= i < infos@.len() ==> (r.candidates@.contains(i) <==> is_candidate_spec(
                infos@[i as int],
                older_than as int,
                include_unmerged,
            )),
        forall|i: usize|
            #![trigger r.skipped@.contains(i)]
            0 <= i < infos@.len() ==> (r.skipped@.contains(i) <==> is_skipped_spec(
                infos@[i as int],
                older_than as int,
                include_unmerged,
            )),
        forall|i: usize| r.candidates@.contains(i) ==> i < infos@.len(),
        forall|i: usize| r.skipped@.contains(i) ==> i < infos@.len(),
        r.candidates@.no_duplicates(),
        r.skipped@.no_duplicates(),
        forall|a: int, b: int|
            0 <= a < b < r.candidates@.len() ==> r.candidates@[a] < r.candidates@[b],
        forall|a: int, b: int| 0 <= a < b < r.skipped@.len() ==> r.skipped@[a] < r.skipped@[b],
{
    let mut candidates: Vec<usize> = Vec::new();
    let mut skipped: Vec<usize> = Vec::new();
    let mut i: usize = 0;
    while i < infos.len()
        invariant
            0 <= i <= infos@.len(),
            forall|k: usize|
                #![trigger candidates@.contains(k)]
                0 <= k < i ==> (candidates@.contains(k) <==> is_candidate_spec(
                    infos@[k as int],
                    older_than as int,
                    include_unmerged,
                )),
            forall|k: usize|
                #![trigger skipped@.contains(k)]
                0 <= k < i ==> (skipped@.contains(k) <==> is_skipped_spec(
                    infos@[k as int],
                    older_than as int,
                    include_unmerged,
                )),
            forall|k: usize| candidates@.contains(k) ==> k < i,
            forall|k: usize| skipped@.contains(k) ==> k < i,
            candidates@.no_duplicates(),
            skipped@.no_duplicates(),
            forall|a: int, b: int|
                0 <= a < b < candidates@.len() ==> candidates@[a] < candidates@[b],
            forall|a: int, b: int| 0 <= a < b < skipped@.len() ==> skipped@[a] < skipped@[b],
        decreases infos@.len() - i,
    {
        let class = classify_for_cleanup(&infos[i], older_than, include_unmerged);
        let ghost old_candidates = candidates@;
        let ghost old_skipped = skipped@;
        match class {
            CleanupClass::Candidate => {
                candidates.push(i);
                proof {
                    assert(!old_candidates.contains(i));
                    assert(candidates@.no_duplicates()) by {
                        assert(candidates@.drop_last() =~= old_candidates);
                    }
                    assert forall|a: int, b: int|
                        0 <= a < b < candidates@.len() implies candidates@[a] < candidates@[b] by {
                        if b == candidates@.len() - 1 {
                            assert(old_candidates.contains(old_candidates[a]));
                        }
                    }
                }
            },
            CleanupClass::Skipped => {
                skipped.push(i);
                proof {
                    assert(!old_skipped.contains(i));
                    assert(skipped@.no_duplicates()) by {
                        assert(skipped@.drop_last() =~= old_skipped);
                    }
                    assert forall|a: int, b: int|
                        0 <= a < b < skipped@.len() implies skipped@[a] < skipped@[b] by {
                        if b == skipped@.len() - 1 {
                            assert(old_skipped.contains(old_skipped[a]));
                        }
                    }
                }
            },
            _ => {},
        }
        i = i + 1;
    }
    CleanupPlan { candidates, skipped }
}

/// How cleanup proceeds once the partition is reported.
pub enum CleanupGate {
    /// No candidates: report that and stop, successfully.
    NothingToDo,
    /// Dry run: the report is the whole effect; stop before any mutation.
    DryRun,
    /// Candidates exist and no `force` flag: ask the user first.
    NeedsConfirmation,
    /// Forced: remove the candidates without asking.
    Proceed,
}

/// Decides whether cleanup stops, asks, or proceeds. A dry run
/// short-circuits before any mutation; without `force` an interactive
/// confirmation is required.
pub fn cleanup_gate(has_candidates: bool, dry_run: bool, force: bool) -> (r: CleanupGate)
    ensures
        !has_candidates <==> r is NothingToDo,
        (has_candidates && dry_run) <==> r is DryRun,
        (has_candidates && !dry_run && !force) <==> r is NeedsConfirmation,
        (has_candidates && !dry_run && force) <==> r is Proceed,
{
    if !has_candidates {
        CleanupGate::NothingToDo
    } else if dry_run {
        CleanupGate::DryRun
    } else if !force {
        CleanupGate::NeedsConfirmation
    } else {
        CleanupGate::Proceed
    }
}

/// Declining the confirmation is a cancellation: a normal negative
/// outcome, reported as `Cancelled` so the command exits non-zero.
pub fn confirmation_outcome(confirmed: bool) -> (r: Result<(), KayfabeError>)
    ensures
        confirmed ==> r is Ok,
        !confirmed ==> r == Result::<(), KayfabeError>::Err(KayfabeError::Cancelled),
{
    if confirmed {
        Ok(())
    } else {
        Err(KayfabeError::Cancelled)
    }
}

/// Removal mode for one cleanup candidate: plain removal when it is safe,
/// forced removal when it is unsafe but included anyway.
pub fn removal_mode(info: &WorktreeInfo) -> (forced: bool)
    ensures
        forced == !safe_to_remove(
            info.safety.has_uncommitted_changes,
            info.safety.has_unmerged_commits,
        ),
{
    info.safety.has_uncommitted_changes || info.safety.has_unmerged_commits
}

/// What `remove` decides for one named worktree.
pub enum RemoveDecision {
    /// The conventional path for the name does not exist.
    NotFound,
    /// Unsafe and not forced: no mutation at all, with every blocking
    /// reason itemized.
    Blocked(Vec<&'static str>),
    /// Remove it, forced or plain.
    Remove { forced: bool },
}

/// Gates the removal of one worktree. `safety` is the inspection of the
/// target, consulted only when `force` is not given; a forced removal
/// never inspects.
pub fn decide_remove(exists: bool, force: bool, safety: &SafetyCheck) -> (r: RemoveDecision)
    ensures
        !exists <==> r is NotFound,
        (exists && force) ==> r == (RemoveDecision::Remove { forced: true }),
        (exists && !force && safe_to_remove(
            safety.has_uncommitted_changes,
            safety.has_unmerged_commits,
        )) ==> r == (RemoveDecision::Remove { forced: false }),
        (exists && !force && !safe_to_remove(
            safety.has_uncommitted_changes,
            safety.has_unmerged_commits,
        )) ==> (r matches RemoveDecision::Blocked(reasons) && reasons@.map_values(|s: &str| s@)
            == blocked_reasons_spec(safety.has_uncommitted_changes, safety.has_unmerged_commits)),
{
    if !exists {
        RemoveDecision::NotFound
    } else if force {
        RemoveDecision::Remove { forced: true }
    } else if !safety.has_uncommitted_changes && !safety.has_unmerged_commits {
        RemoveDecision::Remove { forced: false }
    } else {
        RemoveDecision::Blocked(safety.blocked_reasons())
    }
}

/// Picks the base branch for an operation: the explicit request if given,
/// else the repository's default, else the conventional name.
pub fn resolve_base_branch(explicit: Option<String>, default_branch: Option<String>) -> (r: String)
    ensures
        explicit matches Some(b) ==> r == b,
        explicit is None ==> (default_branch matches Some(d) ==> r == d),
        explicit is None && default_branch is None ==> r@ == "main"@,
{
    match explicit {
        Some(b) => b,
        None => match default_branch {
            Some(d) => d,
            None => "main".to_owned(),
        },
    }
}

/// How one worktree is badged in the unfiltered listing.
pub enum ListMarker {
    /// The anchor checkout.
    Anchor,
    /// Has commits and is older than the badge threshold; carries the age
    /// in whole days.
    Stale(u64),
    /// Has commits within the badge threshold; carries the age in whole
    /// days.
    Aged(u64),
    /// No commits yet: shown as new, never filtered as stale.
    New,
}

/// Chooses the badge the listing shows for one worktree.
pub fn list_marker(info: &WorktreeInfo) -> (r: ListMarker)
    ensures
        info.is_main <==> r is Anchor,
        (!info.is_main && info.staleness_secs is None) <==> r is New,
        !info.is_main ==> (info.staleness_secs matches Some(age) ==> {
            &&& age as int > 14 * 86400 ==> (r matches ListMarker::Stale(d) && d == age as int
                / 86400)
            &&& age as int <= 14 * 86400 ==> (r matches ListMarker::Aged(d) && d == age as int
                / 86400)
        }),
{
    if info.is_main {
        ListMarker::Anchor
    } else {
        match info.staleness_secs {
            Some(age) => {
                let days = whole_days(age);
                if age > LIST_STALE_BADGE_DAYS * 86400 {
                    ListMarker::Stale(days)
                } else {
                    ListMarker::Aged(days)
                }
            },
            None => ListMarker::New,
        }
    }
}

/// Selects the worktrees the stale-only listing shows: those with commit
/// data whose age reaches the threshold. Worktrees without commit data
/// cannot be stale and are excluded.
pub fn filter_stale(infos: &Vec<WorktreeInfo>, threshold_days: u64) -> (r: Vec<usize>)
    ensures
        forall|i: usize|
            #![trigger r@.contains(i)]
            0 <= i < infos@.len() ==> (r@.contains(i) <==> (infos@[i as int].staleness_secs
                matches Some(age) && is_stale_spec(age as int, threshold_days as int))),
        forall|i: usize| r@.contains(i) ==> i < infos@.len(),
        r@.no_duplicates(),
        forall|a: int, b: int| 0 <= a < b < r@.len() ==> r@[a] < r@[b],
{
    let mut picked: Vec<usize> = Vec::new();
    let mut i: usize = 0;
    while i < infos.len()
        invariant
            0 <= i <= infos@.len(),
            forall|k: usize|
                #![trigger picked@.contains(k)]
                0 <= k < i ==> (picked@.contains(k) <==> (infos@[k as int].staleness_secs
                    matches Some(age) && is_stale_spec(age as int, threshold_days as int))),
            forall|k: usize| picked@.contains(k) ==> k < i,
            picked@.no_duplicates(),
            forall|a: int, b: int| 0 <= a < b < picked@.len() ==> picked@[a] < picked@[b],
        decreases infos@.len() - i,
    {
        let ghost old_picked = picked@;
        match infos[i].staleness_secs {
            Some(age) => {
                if is_stale(age, threshold_days) {
                    picked.push(i);
                    proof {
                        assert(!old_picked.contains(i));
                        assert(picked@.no_duplicates()) by {
                            assert(picked@.drop_last() =~= old_picked);
                        }
                        assert forall|a: int, b: int|
                            0 <= a < b < picked@.len() implies picked@[a] < picked@[b] by {
                            if b == picked@.len() - 1 {
                                assert(old_picked.contains(old_picked[a]));
                            }
                        }
                    }
                }
            },
            None => {},
        }
        i = i + 1;
    }
    picked
}

/// A failing post-creation hook is fatal and carries the hook's captured
/// diagnostics; a succeeding one is silent.
pub fn hook_outcome(success: bool, stderr: &String) -> (r: Result<(), KayfabeError>)
    ensures
        success ==> r is Ok,
        !success ==> (r matches Err(e) && e matches KayfabeError::Other(m) && m@
            == "Post-create hook failed: "@ + stderr@),
{
    if success {
        Ok(())
    } else {
        Err(KayfabeError::Other("Post-create hook failed: ".to_owned().concat(stderr.as_str())))
    }
}

} // verus!
