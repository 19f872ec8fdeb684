use vstd::prelude::*;

verus! {

/// Joint negation of the two safety flags: a worktree may be removed
/// without force exactly when it has neither uncommitted changes nor
/// commits missing from the base branch.
pub open spec fn safe_to_remove(uncommitted: bool, unmerged: bool) -> bool {
    !uncommitted && !unmerged
}

/// The reason text reported for a dirty working tree.
pub open spec fn uncommitted_reason() -> Seq<char> {
    "has uncommitted changes"@
}

/// The reason text reported for commits absent from the base branch.
pub open spec fn unmerged_reason() -> Seq<char> {
    "has unmerged commits"@
}

/// The itemized reasons that block removal: one entry per raised flag,
/// uncommitted changes first.
pub open spec fn blocked_reasons_spec(uncommitted: bool, unmerged: bool) -> Seq<Seq<char>> {
    let head = if uncommitted {
        seq![uncommitted_reason()]
    } else {
        Seq::<Seq<char>>::empty()
    };
    if unmerged {
        head.push(unmerged_reason())
    } else {
        head
    }
}

/// Both safety flags recorded for one worktree, with the derived verdict.
pub struct SafetyCheck {
    pub has_uncommitted_changes: bool,
    pub has_unmerged_commits: bool,
    pub is_safe_to_remove: bool,
}

impl SafetyCheck {
    /// The verdict field is not free: it always equals the joint negation
    /// of the two flags.
    pub open spec fn wf(self) -> bool {
        self.is_safe_to_remove == safe_to_remove(
            self.has_uncommitted_changes,
            self.has_unmerged_commits,
        )
    }

    pub fn new(has_uncommitted_changes: bool, has_unmerged_commits: bool) -> (r: SafetyCheck)
        ensures
            r.wf(),
            r.has_uncommitted_changes == has_uncommitted_changes,
            r.has_unmerged_commits == has_unmerged_commits,
    {
        SafetyCheck {
            has_uncommitted_changes,
            has_unmerged_commits,
            is_safe_to_remove: !has_uncommitted_changes && !has_unmerged_commits,
        }
    }

    /// Every reason that currently blocks removal, each reportable on its
    /// own: never collapsed into one message.
    pub fn blocked_reasons(&self) -> (r: Vec<&'static str>)
        ensures
            r@.map_values(|s: &str| s@) == blocked_reasons_spec(
                self.has_uncommitted_changes,
                self.has_unmerged_commits,
            ),
    {
        let mut reasons: Vec<&'static str> = Vec::new();
        if self.has_uncommitted_changes {
            reasons.push("has uncommitted changes");
        }
        if self.has_unmerged_commits {
            reasons.push("has unmerged commits");
        }
        proof {
            assert(reasons@.map_values(|s: &str| s@) =~= blocked_reasons_spec(
                self.has_uncommitted_changes,
                self.has_unmerged_commits,
            ));
        }
        reasons
    }
}

/// Blocked-removal reporting law: whenever removal is unsafe, the reason
/// list is non-empty and carries each raised flag's reason on its own —
/// uncommitted changes and unmerged commits are independently reported,
/// never collapsed into one message.
pub proof fn lemma_blocked_reasons_complete(uncommitted: bool, unmerged: bool)
    ensures
        uncommitted ==> blocked_reasons_spec(uncommitted, unmerged).contains(uncommitted_reason()),
        unmerged ==> blocked_reasons_spec(uncommitted, unmerged).contains(unmerged_reason()),
        !safe_to_remove(uncommitted, unmerged) ==> blocked_reasons_spec(
            uncommitted,
            unmerged,
        ).len() >= 1,
        blocked_reasons_spec(uncommitted, unmerged).len() == (if uncommitted {
            1int
        } else {
            0int
        }) + (if unmerged {
            1int
        } else {
            0int
        }),
{
    let rs = blocked_reasons_spec(uncommitted, unmerged);
    if uncommitted {
        assert(rs[0] == uncommitted_reason());
    }
    if unmerged {
        assert(rs[rs.len() - 1] == unmerged_reason());
    }
}

/// Safety derivation law: for every combination of the two flags, the
/// verdict recorded by `SafetyCheck::new` equals their joint negation.
pub proof fn lemma_safety_derivation(uncommitted: bool, unmerged: bool)
    ensures
        safe_to_remove(uncommitted, unmerged) == (!uncommitted && !unmerged),
        uncommitted ==> !safe_to_remove(uncommitted, unmerged),
        unmerged ==> !safe_to_remove(uncommitted, unmerged),
        !uncommitted && !unmerged ==> safe_to_remove(uncommitted, unmerged),
{
}

} // verus!
