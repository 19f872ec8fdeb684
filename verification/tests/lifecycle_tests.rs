use kayfabe::lifecycle::{
    cleanup_gate, classify_for_cleanup, confirmation_outcome, decide_remove, filter_stale,
    hook_outcome, list_marker, plan_cleanup, removal_mode, resolve_base_branch, CleanupClass,
    CleanupGate, ListMarker, RemoveDecision,
};
use kayfabe::safety::SafetyCheck;
use kayfabe::worktree::{branch_from_output, timestamp_from_output, Worktree, WorktreeInfo};
use kayfabe::KayfabeError;

const DAY: u64 = 86400;

fn info(path: &str, branch: Option<&str>, age_days: Option<u64>, dirty: bool, ahead: u64) -> WorktreeInfo {
    let now: u64 = 1_700_000_000;
    let last = age_days.map(|d| now - d * DAY);
    Worktree::get_info(
        &path.to_string(),
        &"main".to_string(),
        branch.map(|b| b.to_string()),
        last,
        now,
        dirty,
        ahead,
    )
}

#[test]
fn safety_truth_table() {
    assert!(SafetyCheck::new(false, false).is_safe_to_remove);
    assert!(!SafetyCheck::new(true, false).is_safe_to_remove);
    assert!(!SafetyCheck::new(false, true).is_safe_to_remove);
    assert!(!SafetyCheck::new(true, true).is_safe_to_remove);
}

#[test]
fn blocked_reasons_itemized() {
    let both = SafetyCheck::new(true, true).blocked_reasons();
    assert_eq!(both, vec!["has uncommitted changes", "has unmerged commits"]);
    let dirty = SafetyCheck::new(true, false).blocked_reasons();
    assert_eq!(dirty, vec!["has uncommitted changes"]);
    let unmerged = SafetyCheck::new(false, true).blocked_reasons();
    assert_eq!(unmerged, vec!["has unmerged commits"]);
    let clean = SafetyCheck::new(false, false).blocked_reasons();
    assert!(clean.is_empty());
}

#[test]
fn staleness_exact_values() {
    assert_eq!(kayfabe::staleness::age_secs(1000, 800), 200);
    assert_eq!(kayfabe::staleness::age_secs(800, 1000), 0);
    assert!(kayfabe::staleness::is_stale(14 * DAY, 14));
    assert!(!kayfabe::staleness::is_stale(14 * DAY - 1, 14));
    assert_eq!(kayfabe::staleness::whole_days(2 * DAY + 5), 2);
}

#[test]
fn staleness_monotonic_at_one_instant() {
    let now: u64 = 1_700_000_000;
    let t1 = now - 20 * DAY;
    let t2 = now - 5 * DAY;
    assert!(t1 < t2);
    assert!(kayfabe::staleness::age_secs(now, t1) > kayfabe::staleness::age_secs(now, t2));
}

#[test]
fn backend_answers_are_normalized() {
    assert_eq!(branch_from_output("main\n"), Some("main".to_string()));
    assert_eq!(branch_from_output(""), None);
    assert_eq!(branch_from_output("  \n"), None);
    assert_eq!(timestamp_from_output("1700000000\n"), Some(1_700_000_000));
    assert_eq!(timestamp_from_output(""), None);
    assert_eq!(timestamp_from_output("not-a-number\n"), Some(0));
}

#[test]
fn inspect_assembles_the_snapshot() {
    let i = info("/r/wt/old", Some("old"), Some(20), false, 0);
    assert_eq!(i.path, "/r/wt/old");
    assert_eq!(i.branch.as_deref(), Some("old"));
    assert!(!i.is_main);
    assert_eq!(i.staleness_secs, Some(20 * DAY));
    assert!(i.safety.is_safe_to_remove);
}

#[test]
fn anchor_is_classified_structurally_and_semantically() {
    assert!(info("/r/main", Some("feature"), Some(1), false, 0).is_main);
    assert!(info("/r/wt/x", Some("main"), Some(1), false, 0).is_main);
    assert!(!info("/r/wt/domain", Some("x"), Some(1), false, 0).is_main);
}

#[test]
fn no_commits_is_not_zero_staleness() {
    let i = info("/r/wt/new", Some("new"), None, false, 0);
    assert_eq!(i.staleness_secs, None);
    assert!(matches!(list_marker(&i), ListMarker::New));
}

#[test]
fn cleanup_partition_exhaustive() {
    let anchor = info("/r/main", Some("main"), Some(40), false, 0);
    let stale_safe = info("/r/wt/a", Some("a"), Some(40), false, 0);
    let stale_unsafe = info("/r/wt/b", Some("b"), Some(40), true, 0);
    let fresh = info("/r/wt/c", Some("c"), Some(1), false, 0);
    let no_commits = info("/r/wt/d", Some("d"), None, true, 3);

    assert!(matches!(classify_for_cleanup(&anchor, 14, false), CleanupClass::Anchor));
    assert!(matches!(classify_for_cleanup(&stale_safe, 14, false), CleanupClass::Candidate));
    assert!(matches!(classify_for_cleanup(&stale_unsafe, 14, false), CleanupClass::Skipped));
    assert!(matches!(classify_for_cleanup(&stale_unsafe, 14, true), CleanupClass::Candidate));
    assert!(matches!(classify_for_cleanup(&fresh, 14, false), CleanupClass::Fresh));
    assert!(matches!(classify_for_cleanup(&no_commits, 14, false), CleanupClass::Fresh));

    let infos = vec![anchor, stale_safe, stale_unsafe, fresh, no_commits];
    let plan = plan_cleanup(&infos, 14, false);
    assert_eq!(plan.candidates, vec![1]);
    assert_eq!(plan.skipped, vec![2]);
    for i in 0..infos.len() {
        let in_candidates = plan.candidates.contains(&i);
        let in_skipped = plan.skipped.contains(&i);
        assert!(!(in_candidates && in_skipped));
    }
}

#[test]
fn cleanup_gate_order() {
    assert!(matches!(cleanup_gate(false, false, false), CleanupGate::NothingToDo));
    assert!(matches!(cleanup_gate(true, true, true), CleanupGate::DryRun));
    assert!(matches!(cleanup_gate(true, false, false), CleanupGate::NeedsConfirmation));
    assert!(matches!(cleanup_gate(true, false, true), CleanupGate::Proceed));
}

#[test]
fn declining_confirmation_is_cancellation() {
    assert!(confirmation_outcome(true).is_ok());
    match confirmation_outcome(false) {
        Err(e) => assert_eq!(e.message(), "Operation cancelled by user"),
        Ok(_) => panic!("declining must not succeed"),
    }
}

#[test]
fn remove_gating() {
    let safe = SafetyCheck::new(false, false);
    let unsafe_both = SafetyCheck::new(true, true);
    assert!(matches!(decide_remove(false, false, &safe), RemoveDecision::NotFound));
    assert!(matches!(decide_remove(true, true, &unsafe_both), RemoveDecision::Remove { forced: true }));
    assert!(matches!(decide_remove(true, false, &safe), RemoveDecision::Remove { forced: false }));
    match decide_remove(true, false, &unsafe_both) {
        RemoveDecision::Blocked(reasons) => {
            assert_eq!(reasons, vec!["has uncommitted changes", "has unmerged commits"]);
        }
        _ => panic!("unsafe removal without force must be blocked"),
    }
}

#[test]
fn remove_unsafe_worktree_without_force_is_blocked() {
    // An uncommitted file blocks removal and the reason names it; no
    // removal decision is produced, so nothing is mutated.
    let wip = info("/r/wt/wip", Some("wip"), Some(1), true, 0);
    match decide_remove(true, false, &wip.safety) {
        RemoveDecision::Blocked(reasons) => {
            assert!(reasons.contains(&"has uncommitted changes"));
        }
        _ => panic!("expected a blocked removal"),
    }
}

#[test]
fn cleanup_removes_stale_merged_worktree_when_forced() {
    // A 20-day-old, clean, merged worktree under a 14-day threshold is a
    // candidate; the forced gate proceeds without asking, and the removal
    // mode is plain because it is safe.
    let old = info("/r/wt/old", Some("old"), Some(20), false, 0);
    assert!(matches!(classify_for_cleanup(&old, 14, false), CleanupClass::Candidate));
    let infos = vec![old];
    let plan = plan_cleanup(&infos, 14, false);
    assert_eq!(plan.candidates, vec![0]);
    assert!(plan.skipped.is_empty());
    assert!(matches!(cleanup_gate(true, false, true), CleanupGate::Proceed));
    assert!(!removal_mode(&infos[0]));
    let args = kayfabe::repo::worktree_remove_args(&infos[0].path, removal_mode(&infos[0]));
    assert_eq!(args, vec!["worktree", "remove", "/r/wt/old"]);
}

#[test]
fn dry_run_cleanup_reports_and_stops() {
    // A 40-day-stale safe worktree under a 30-day threshold is reported
    // as a candidate, and the dry-run gate stops before any mutation.
    let old = info("/r/wt/old", Some("old"), Some(40), false, 0);
    let infos = vec![old];
    let plan = plan_cleanup(&infos, 30, false);
    assert_eq!(plan.candidates, vec![0]);
    assert!(matches!(cleanup_gate(true, true, false), CleanupGate::DryRun));
}

#[test]
fn list_markers() {
    assert!(matches!(list_marker(&info("/r/main", Some("main"), Some(1), false, 0)), ListMarker::Anchor));
    assert!(matches!(list_marker(&info("/r/wt/a", Some("a"), Some(15), false, 0)), ListMarker::Stale(15)));
    assert!(matches!(list_marker(&info("/r/wt/b", Some("b"), Some(3), false, 0)), ListMarker::Aged(3)));
    assert!(matches!(list_marker(&info("/r/wt/c", Some("c"), None, false, 0)), ListMarker::New));
}

#[test]
fn stale_filter_excludes_commitless_worktrees() {
    let a = info("/r/wt/a", Some("a"), Some(20), false, 0);
    let b = info("/r/wt/b", Some("b"), None, false, 0);
    let c = info("/r/wt/c", Some("c"), Some(5), false, 0);
    let infos = vec![a, b, c];
    assert_eq!(filter_stale(&infos, 10), vec![0]);
    assert_eq!(filter_stale(&infos, 1), vec![0, 2]);
}

#[test]
fn base_branch_resolution() {
    assert_eq!(
        resolve_base_branch(Some("dev".to_string()), Some("master".to_string())),
        "dev"
    );
    assert_eq!(resolve_base_branch(None, Some("master".to_string())), "master");
    assert_eq!(resolve_base_branch(None, None), "main");
}

#[test]
fn hook_failure_is_fatal_with_diagnostics() {
    assert!(hook_outcome(true, &"".to_string()).is_ok());
    match hook_outcome(false, &"boom".to_string()) {
        Err(KayfabeError::Other(m)) => assert_eq!(m, "Post-create hook failed: boom"),
        _ => panic!("a failing hook must abort"),
    }
}
