use vstd::prelude::*;
use crate::safety::SafetyCheck;
use crate::staleness::{age_secs, age_secs_spec};
use crate::text::{all_digits, dec_value, has_leaf, has_leaf_spec, parse_u64, str_eq, trim_ws, trim_ws_spec};

verus! {

/// A snapshot of the facts that gate lifecycle decisions for one worktree.
/// Recomputed on every query, never persisted.
pub struct WorktreeInfo {
    /// Filesystem path of the worktree.
    pub path: String,
    /// The branch checked out there; `None` for a detached head.
    pub branch: Option<String>,
    /// Whether this worktree is the anchor checkout, structurally (it
    /// occupies the anchor slot) or semantically (it tracks the base
    /// branch).
    pub is_main: bool,
    /// Age of the last commit in seconds, observed at one instant for the
    /// whole run; `None` when there are no commits, which is distinct from
    /// an age of zero.
    pub staleness_secs: Option<u64>,
    /// The removal-safety flags.
    pub safety: SafetyCheck,
}

impl WorktreeInfo {
    pub open spec fn wf(self) -> bool {
        self.safety.wf()
    }
}

/// Normalizes the backend's current-branch answer: the name with
/// surrounding whitespace dropped, or `None` for the empty answer a
/// detached head gives.
pub fn branch_from_output(raw: &str) -> (r: Option<String>)
    ensures
        trim_ws_spec(raw@).len() == 0 ==> r is None,
        trim_ws_spec(raw@).len() > 0 ==> (r matches Some(b) && b@ == trim_ws_spec(raw@)),
{
    let t = trim_ws(raw);
    if t.as_str().unicode_len() == 0 {
        None
    } else {
        Some(t)
    }
}

/// Normalizes the backend's last-commit-timestamp answer: `None` for the
/// empty answer of a history without commits, the parsed epoch seconds for
/// a digit answer, and zero for anything else.
pub fn timestamp_from_output(raw: &str) -> (r: Option<u64>)
    ensures
        trim_ws_spec(raw@).len() == 0 ==> r is None,
        trim_ws_spec(raw@).len() > 0 ==> (r matches Some(ts) && (all_digits(trim_ws_spec(raw@))
            && dec_value(trim_ws_spec(raw@)) <= u64::MAX ==> ts == dec_value(trim_ws_spec(raw@)))
            && (!all_digits(trim_ws_spec(raw@)) || dec_value(trim_ws_spec(raw@)) > u64::MAX ==> ts
            == 0)),
{
    let t = trim_ws(raw);
    if t.as_str().unicode_len() == 0 {
        None
    } else {
        match parse_u64(t.as_str()) {
            Some(v) => Some(v),
            None => Some(0),
        }
    }
}

/// The worktree is the anchor: its path's last component is the anchor
/// slot's name, or its branch is the base branch.
pub open spec fn is_anchor_spec(path: Seq<char>, branch: Option<Seq<char>>, base: Seq<char>) -> bool {
    has_leaf_spec(path, "main"@) || branch == Some(base)
}

pub struct Worktree;

impl Worktree {
    /// Assembles the inspection snapshot for one worktree from the facts
    /// the version-control backend reports: the checked-out branch, the
    /// last commit's epoch seconds, the observation instant, whether the
    /// working directory differs from its head, and how many commits its
    /// head is ahead of the base branch.
    pub fn get_info(
        path: &String,
        base_branch: &String,
        branch: Option<String>,
        last_commit: Option<u64>,
        now: u64,
        dirty: bool,
        commits_ahead: u64,
    ) -> (r: WorktreeInfo)
        ensures
            r.wf(),
            r.path == path,
            r.branch == branch,
            r.is_main == is_anchor_spec(
                path@,
                match branch {
                    Some(b) => Some(b@),
                    None => None,
                },
                base_branch@,
            ),
            r.staleness_secs == match last_commit {
                Some(ts) => Some(age_secs_spec(now as int, ts as int) as u64),
                None => None::<u64>,
            },
            r.safety.has_uncommitted_changes == dirty,
            r.safety.has_unmerged_commits == (commits_ahead > 0),
    {
        let on_base = match &branch {
            Some(b) => str_eq(b.as_str(), base_branch.as_str()),
            None => false,
        };
        let is_main = has_leaf(path.as_str(), "main") || on_base;
        let staleness_secs = match last_commit {
            Some(ts) => Some(age_secs(now, ts)),
            None => None,
        };
        let safety = SafetyCheck::new(dirty, commits_ahead > 0);
        proof {
            match &branch {
                Some(b) => {
                    assert(on_base == (b@ == base_branch@));
                    if b@ == base_branch@ {
                        assert(Some(b@) == Some(base_branch@));
                    } else {
                        assert(Some(b@) != Some(base_branch@));
                    }
                },
                None => {
                    assert(Option::<Seq<char>>::None != Some(base_branch@));
                },
            }
        }
        WorktreeInfo { path: path.clone(), branch, is_main, staleness_secs, safety }
    }
}

} // verus!
