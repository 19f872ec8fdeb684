use vstd::prelude::*;

verus! {

/// Every failure the lifecycle manager can report. Failures of outside
/// libraries are carried as their rendered message text.
#[derive(Debug)]
pub enum KayfabeError {
    /// A failure reported by the version-control backend.
    Git(String),
    /// A failure reported by the operating system.
    Io(String),
    /// A failure reported by an interactive prompt.
    Dialog(String),
    /// No repository metadata was found at or above the given path.
    NotARepository(String),
    /// The target path for a new worktree is already taken.
    WorktreeExists(String),
    /// No worktree of the given name exists.
    WorktreeNotFound(String),
    /// The named branch does not exist.
    BranchNotFound(String),
    /// The requested editor is unknown or not installed.
    IdeNotFound(String),
    /// The user declined an interactive confirmation.
    Cancelled,
    /// Any other failure, carried as its message.
    Other(String),
}

impl KayfabeError {
    /// The message prefix of each variant, as the user sees it.
    pub open spec fn prefix_spec(self) -> Seq<char> {
        match self {
            KayfabeError::Git(_) => "Git error: "@,
            KayfabeError::Io(_) => "IO error: "@,
            KayfabeError::Dialog(_) => "Dialog error: "@,
            KayfabeError::NotARepository(_) => "Not a git repository: "@,
            KayfabeError::WorktreeExists(_) => "Worktree already exists: "@,
            KayfabeError::WorktreeNotFound(_) => "Worktree not found: "@,
            KayfabeError::BranchNotFound(_) => "Branch not found: "@,
            KayfabeError::IdeNotFound(_) => "IDE not found: "@,
            KayfabeError::Cancelled => "Operation cancelled by user"@,
            KayfabeError::Other(_) => ""@,
        }
    }

    /// The detail text carried by the variant; empty where it carries none.
    pub open spec fn detail_spec(self) -> Seq<char> {
        match self {
            KayfabeError::Git(s) => s@,
            KayfabeError::Io(s) => s@,
            KayfabeError::Dialog(s) => s@,
            KayfabeError::NotARepository(s) => s@,
            KayfabeError::WorktreeExists(s) => s@,
            KayfabeError::WorktreeNotFound(s) => s@,
            KayfabeError::BranchNotFound(s) => s@,
            KayfabeError::IdeNotFound(s) => s@,
            KayfabeError::Cancelled => Seq::<char>::empty(),
            KayfabeError::Other(s) => s@,
        }
    }

    /// Renders the error for the user: the variant's prefix followed by
    /// its detail text.
    pub fn message(&self) -> (r: String)
        ensures
            r@ == self.prefix_spec() + self.detail_spec(),
    {
        match self {
            KayfabeError::Git(s) => "Git error: ".to_owned().concat(s.as_str()),
            KayfabeError::Io(s) => "IO error: ".to_owned().concat(s.as_str()),
            KayfabeError::Dialog(s) => "Dialog error: ".to_owned().concat(s.as_str()),
            KayfabeError::NotARepository(s) => "Not a git repository: ".to_owned().concat(
                s.as_str(),
            ),
            KayfabeError::WorktreeExists(s) => "Worktree already exists: ".to_owned().concat(
                s.as_str(),
            ),
            KayfabeError::WorktreeNotFound(s) => "Worktree not found: ".to_owned().concat(
                s.as_str(),
            ),
            KayfabeError::BranchNotFound(s) => "Branch not found: ".to_owned().concat(s.as_str()),
            KayfabeError::IdeNotFound(s) => "IDE not found: ".to_owned().concat(s.as_str()),
            KayfabeError::Cancelled => {
                let r = "Operation cancelled by user".to_owned();
                proof {
                    assert(r@ =~= self.prefix_spec() + self.detail_spec());
                }
                r
            },
            KayfabeError::Other(s) => {
                let r = s.clone();
                proof {
                    reveal_strlit("");
                    assert(r@ =~= self.prefix_spec() + self.detail_spec());
                }
                r
            },
        }
    }
}

} // verus!
