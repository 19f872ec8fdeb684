use vstd::prelude::*;
use crate::error::KayfabeError;
use crate::layout::{conversion_plan, ConvertAction};
use crate::probes::{path_exists, path_is_dir};
use crate::text::{
    first_nl, join_spec, leaf_of, lemma_first_nl_at, lemma_rtrim_char_is_prefix, parent_of,
    path_join, rtrim_char, rtrim_char_spec, starts_with, starts_with_spec, views_of,
};

verus! {

#[verifier::external_type_specification]
#[verifier::external_body]
pub struct ExRepository(git2::Repository);

#[verifier::external_type_specification]
#[verifier::external_body]
pub struct ExRemote<'a>(git2::Remote<'a>);

/// Relies on git2::Repository::discover: opens the repository at or above
/// the given path; `None` when none is found. What is found depends on
/// the filesystem, so nothing is promised of the result.
#[verifier::external_body]
fn repo_discover(path: &str) -> Option<git2::Repository> {
    git2::Repository::discover(path).ok()
}

/// Relies on git2::Repository::workdir, documented to return the working
/// directory and `None` for a bare repository. The working directory of a
/// non-bare checkout is an absolute path (the backend stores it resolved),
/// rendered here as it stands.
#[verifier::external_body]
fn repo_workdir(repo: &git2::Repository) -> (r: Option<String>)
    ensures
        r matches Some(p) ==> p@.len() >= 1 && p@[0] == '/',
{
    repo.workdir().map(|w| w.to_string_lossy().into_owned())
}

/// Drops a directory path's trailing separators; a path that was nothing
/// but separators is the filesystem root. An absolute path stays absolute.
fn strip_trailing_separators(s: &str) -> (r: String)
    ensures
        r@ == (if rtrim_char_spec(s@, '/').len() == 0 {
            seq!['/']
        } else {
            rtrim_char_spec(s@, '/')
        }),
        s@.len() >= 1 && s@[0] == '/' ==> r@.len() >= 1 && r@[0] == '/',
{
    proof {
        lemma_rtrim_char_is_prefix(s@, '/');
    }
    let t = rtrim_char(s, '/');
    if t.as_str().unicode_len() == 0 {
        let root = "/".to_owned();
        proof {
            reveal_strlit("/");
            assert(root@ =~= seq!['/']);
        }
        root
    } else {
        t
    }
}

/// Relies on git2::Repository::find_branch with the local branch kind:
/// whether a local branch of the given name exists. The answer depends on
/// the repository's state at the instant of the call.
#[verifier::external_body]
fn local_branch_lookup(repo: &git2::Repository, name: &str) -> bool {
    repo.find_branch(name, git2::BranchType::Local).is_ok()
}

/// Relies on git2::Repository::find_branch with the remote branch kind:
/// whether a remote-tracking branch of the given full name exists.
#[verifier::external_body]
fn remote_branch_lookup(repo: &git2::Repository, full_name: &str) -> bool {
    repo.find_branch(full_name, git2::BranchType::Remote).is_ok()
}

/// Relies on git2::Repository::find_remote: the configured remote of the
/// given name, or `None`.
#[verifier::external_body]
fn find_remote_by_name<'a>(repo: &'a git2::Repository, name: &str) -> Option<git2::Remote<'a>> {
    repo.find_remote(name).ok()
}

/// Relies on git2::Remote::fetch: downloads refs per the given refspec.
/// Best-effort by design — the outcome is deliberately discarded, so
/// nothing is promised.
#[verifier::external_body]
fn remote_fetch_refspec(remote: &mut git2::Remote<'_>, refspec: &str) {
    let _ = remote.fetch(&[refspec], None, None);
}

/// Relies on rand::random_range: a draw from the given half-open range,
/// used to make the conversion staging path unique.
#[verifier::external_body]
fn random_tmp_suffix() -> (r: u64)
    ensures
        10000 <= r < 99999,
{
    rand::random_range(10000u64..99999)
}

/// The default base branch: the conventional primary name when a branch
/// of that name exists, the older conventional name when only that one
/// exists, and the primary name again when neither does.
pub open spec fn default_branch_spec(main_exists: bool, master_exists: bool) -> Seq<char> {
    if main_exists {
        "main"@
    } else if master_exists {
        "master"@
    } else {
        "main"@
    }
}

/// Picks the default base branch from the two existence facts.
pub fn default_branch_name(main_exists: bool, master_exists: bool) -> (r: String)
    ensures
        r@ == default_branch_spec(main_exists, master_exists),
{
    if main_exists {
        "main".to_owned()
    } else if master_exists {
        "master".to_owned()
    } else {
        "main".to_owned()
    }
}

/// What creating one worktree requires of the backend: where to put it,
/// and whether to attach the existing branch of that name or to create a
/// new branch.
pub struct CreatePlan {
    /// Target path of the new worktree.
    pub path: String,
    /// True when a local branch of the worktree's name already exists and
    /// the worktree attaches to it; false when a new branch is created
    /// from the base branch.
    pub attach_existing: bool,
}

/// A discovered repository: the backend handle, the checkout root, and
/// the managed layout root that owns the satellite container.
pub struct GitRepo {
    repo: git2::Repository,
    root: String,
    layout_root: String,
}

impl GitRepo {
    /// The checkout root is always an absolute path: it comes from the
    /// backend's working-directory answer.
    #[verifier::type_invariant]
    spec fn wf(self) -> bool {
        self.root@.len() >= 1 && self.root@[0] == '/'
    }

    /// The checkout root's character sequence.
    pub closed spec fn root_spec(&self) -> Seq<char> {
        self.root@
    }

    /// The layout root's character sequence.
    pub closed spec fn layout_root_spec(&self) -> Seq<char> {
        self.layout_root@
    }

    /// Whether the given path is itself a dual-root layout root: both the
    /// anchor and the satellite subtrees exist under it as directories.
    fn is_worktree_layout_root(path: &String) -> bool {
        let main_dir = path_join(path.as_str(), "main");
        let wt_dir = path_join(path.as_str(), "wt");
        path_is_dir(main_dir.as_str()) && path_is_dir(wt_dir.as_str())
    }

    /// Opens the repository at or above `path`. A path that is itself a
    /// converted layout root is entered through its anchor checkout.
    /// Fails with `NotARepository` carrying the original path when the
    /// backend finds nothing, and refuses bare repositories.
    pub fn discover(path: &String) -> (r: Result<GitRepo, KayfabeError>)
        ensures
            r matches Err(e) ==> (e matches KayfabeError::NotARepository(p) && p == path) || (
            e matches KayfabeError::Other(m) && m@ == "Bare repository not supported"@),
            r matches Ok(g) ==> g.layout_root_spec() == path@ || g.layout_root_spec()
                == g.root_spec(),
    {
        let is_layout_root = Self::is_worktree_layout_root(path);
        let discover_path = if is_layout_root {
            path_join(path.as_str(), "main")
        } else {
            path.clone()
        };
        let repo = match repo_discover(discover_path.as_str()) {
            Some(r) => r,
            None => {
                return Err(KayfabeError::NotARepository(path.clone()));
            },
        };
        let raw_root = match repo_workdir(&repo) {
            Some(w) => w,
            None => {
                return Err(KayfabeError::Other("Bare repository not supported".to_owned()));
            },
        };
        let root = strip_trailing_separators(raw_root.as_str());
        let layout_root = if is_layout_root {
            path.clone()
        } else {
            root.clone()
        };
        Ok(GitRepo { repo, root, layout_root })
    }

    /// The root of the anchor checkout.
    pub fn root(&self) -> (r: &String)
        ensures
            r@ == self.root_spec(),
    {
        &self.root
    }

    /// The root of the managed layout.
    pub fn layout_root(&self) -> (r: &String)
        ensures
            r@ == self.layout_root_spec(),
    {
        &self.layout_root
    }

    /// Whether the layout root currently has the dual-root shape. Probes
    /// the filesystem, so the answer is a snapshot.
    pub fn is_worktree_layout(&self) -> bool {
        let main_dir = path_join(self.layout_root.as_str(), "main");
        let wt_dir = path_join(self.layout_root.as_str(), "wt");
        path_is_dir(main_dir.as_str()) && path_is_dir(wt_dir.as_str())
    }

    /// Whether a local branch of the given name exists. The lookup itself
    /// cannot fail, so the answer is always delivered.
    pub fn branch_exists(&self, name: &String) -> (r: Result<bool, KayfabeError>)
        ensures
            r is Ok,
    {
        Ok(local_branch_lookup(&self.repo, name.as_str()))
    }

    /// Whether a remote-tracking branch of the given name exists on the
    /// conventional remote.
    pub fn remote_branch_exists(&self, name: &String) -> (r: Result<bool, KayfabeError>)
        ensures
            r is Ok,
    {
        let full = "origin/".to_owned().concat(name.as_str());
        Ok(remote_branch_lookup(&self.repo, full.as_str()))
    }

    /// The branch new worktrees are based on by default, per the two
    /// existence checks. Always delivered, and always one of the two
    /// conventional names.
    pub fn get_default_branch(&self) -> (r: Result<String, KayfabeError>)
        ensures
            r matches Ok(b) && (b@ == "main"@ || b@ == "master"@),
    {
        let main_exists = match self.branch_exists(&"main".to_owned()) {
            Ok(b) => b,
            Err(_) => false,
        };
        let master_exists = match self.branch_exists(&"master".to_owned()) {
            Ok(b) => b,
            Err(_) => false,
        };
        Ok(default_branch_name(main_exists, master_exists))
    }

    /// Best-effort fetch from the conventional remote: failures are
    /// swallowed by design, so this always succeeds and never aborts a
    /// surrounding operation.
    pub fn fetch(&self) -> (r: Result<(), KayfabeError>)
        ensures
            r is Ok,
    {
        match find_remote_by_name(&self.repo, "origin") {
            Some(mut remote) => {
                remote_fetch_refspec(&mut remote, "refs/heads/*:refs/remotes/origin/*");
            },
            None => {},
        }
        Ok(())
    }

    /// Plans the staged conversion of this repository to the dual-root
    /// layout: no actions when already converted, a refusal when the root
    /// is ambiguous, and otherwise the four-step staged protocol.
    pub fn plan_conversion(&self) -> (r: Result<Vec<ConvertAction>, KayfabeError>)
        ensures
            r matches Err(e) ==> e is Other,
            r matches Ok(v) ==> v@.len() == 0 || {
                &&& v@.len() == 4
                &&& v@[0] matches ConvertAction::StageToTemp { from: sfrom, to: sto } && sfrom@
                    == self.root_spec() && (v@[2] matches ConvertAction::MoveToMain {
                    from: mfrom,
                    to: mto,
                } && mfrom@ == sto@ && mto@ == join_spec(self.root_spec(), "main"@))
                &&& v@[1] matches ConvertAction::RecreateRoot { path } && path@ == self.root_spec()
                &&& v@[3] matches ConvertAction::CreateWorktreeDir { path } && path@ == join_spec(
                    self.root_spec(),
                    "wt"@,
                )
            },
    {
        proof {
            use_type_invariant(self);
        }
        let already = self.is_worktree_layout();
        let stray_main = path_join(self.root.as_str(), "main");
        let has_main_dir = path_is_dir(stray_main.as_str());
        let parent = match parent_of(self.root.as_str()) {
            Some(p) => p,
            None => {
                return Err(KayfabeError::Other("Cannot get parent directory".to_owned()));
            },
        };
        let name = leaf_of(self.root.as_str());
        if name.as_str().unicode_len() == 0 {
            return Err(KayfabeError::Other("Cannot get repo name".to_owned()));
        }
        let suffix = random_tmp_suffix();
        conversion_plan(&self.root, &parent, &name, suffix, already, has_main_dir)
    }

    /// Decides what creating the named worktree takes: its target path —
    /// inside the satellite container when the layout is converted, else
    /// directly under the root — a refusal when the path is already
    /// taken, and whether to attach the existing branch of that name.
    pub fn plan_create(&self, name: &String) -> (r: Result<CreatePlan, KayfabeError>)
        ensures
            r matches Err(e) ==> e matches KayfabeError::WorktreeExists(n) && n == name,
            r matches Ok(p) ==> p.path@ == join_spec(
                join_spec(self.layout_root_spec(), "wt"@),
                name@,
            ) || p.path@ == join_spec(self.root_spec(), name@),
    {
        let wt_path = if self.is_worktree_layout() {
            let wt_dir = path_join(self.layout_root.as_str(), "wt");
            path_join(wt_dir.as_str(), name.as_str())
        } else {
            path_join(self.root.as_str(), name.as_str())
        };
        if path_exists(wt_path.as_str()) {
            return Err(KayfabeError::WorktreeExists(name.clone()));
        }
        let attach_existing = match self.branch_exists(name) {
            Ok(b) => b,
            Err(_) => false,
        };
        Ok(CreatePlan { path: wt_path, attach_existing })
    }

    /// The conventional path of the named worktree for removal: inside
    /// the satellite container when the layout is converted, else
    /// directly under the root.
    pub fn remove_target(&self, name: &String) -> (r: String)
        ensures
            r@ == join_spec(join_spec(self.layout_root_spec(), "wt"@), name@) || r@ == join_spec(
                self.root_spec(),
                name@,
            ),
    {
        if self.is_worktree_layout() {
            let wt_dir = path_join(self.layout_root.as_str(), "wt");
            path_join(wt_dir.as_str(), name.as_str())
        } else {
            path_join(self.root.as_str(), name.as_str())
        }
    }
}

/// The backend arguments that add one worktree: attach the existing
/// branch, or create a new branch from the base.
pub open spec fn add_args_spec(
    path: Seq<char>,
    name: Seq<char>,
    base: Seq<char>,
    attach_existing: bool,
) -> Seq<Seq<char>> {
    if attach_existing {
        seq!["worktree"@, "add"@, path, name]
    } else {
        seq!["worktree"@, "add"@, "-b"@, name, path, base]
    }
}

/// Builds the backend's argument list for adding one worktree.
pub fn worktree_add_args(
    path: &String,
    name: &String,
    base_branch: &String,
    attach_existing: bool,
) -> (r: Vec<String>)
    ensures
        views_of(r@) == add_args_spec(path@, name@, base_branch@, attach_existing),
{
    let mut r: Vec<String> = Vec::new();
    r.push("worktree".to_owned());
    r.push("add".to_owned());
    if attach_existing {
        r.push(path.clone());
        r.push(name.clone());
    } else {
        r.push("-b".to_owned());
        r.push(name.clone());
        r.push(path.clone());
        r.push(base_branch.clone());
    }
    proof {
        assert(views_of(r@) =~= add_args_spec(path@, name@, base_branch@, attach_existing));
    }
    r
}

/// The backend arguments that remove one worktree, forced or plain.
pub open spec fn remove_args_spec(path: Seq<char>, forced: bool) -> Seq<Seq<char>> {
    if forced {
        seq!["worktree"@, "remove"@, "--force"@, path]
    } else {
        seq!["worktree"@, "remove"@, path]
    }
}

/// Builds the backend's argument list for removing one worktree.
pub fn worktree_remove_args(path: &String, forced: bool) -> (r: Vec<String>)
    ensures
        views_of(r@) == remove_args_spec(path@, forced),
{
    let mut r: Vec<String> = Vec::new();
    r.push("worktree".to_owned());
    r.push("remove".to_owned());
    if forced {
        r.push("--force".to_owned());
    }
    r.push(path.clone());
    proof {
        assert(views_of(r@) =~= remove_args_spec(path@, forced));
    }
    r
}

/// The backend arguments that list all worktrees in parseable form.
pub open spec fn list_args_spec() -> Seq<Seq<char>> {
    seq!["worktree"@, "list"@, "--porcelain"@]
}

/// Builds the backend's argument list for listing the worktrees.
pub fn worktree_list_args() -> (r: Vec<String>)
    ensures
        views_of(r@) == list_args_spec(),
{
    let mut r: Vec<String> = Vec::new();
    r.push("worktree".to_owned());
    r.push("list".to_owned());
    r.push("--porcelain".to_owned());
    proof {
        assert(views_of(r@) =~= list_args_spec());
    }
    r
}

/// Judges one backend invocation from its exit status: success is silent,
/// and a failure is fatal, naming what the invocation concerned and
/// carrying its captured diagnostics. Inspection and mutation failures
/// must surface; they are never read as an empty answer.
pub fn backend_outcome(success: bool, context: &String, stderr: &String) -> (r: Result<
    (),
    KayfabeError,
>)
    ensures
        success ==> r is Ok,
        !success ==> (r matches Err(e) && e matches KayfabeError::Git(m) && m@ == context@ + ": "@
            + stderr@),
{
    if success {
        Ok(())
    } else {
        Err(KayfabeError::Git(context.clone().concat(": ").concat(stderr.as_str())))
    }
}

/// The worktree path one record line carries, if it is a path line.
pub open spec fn line_path_spec(line: Seq<char>) -> Seq<Seq<char>> {
    if starts_with_spec(line, "worktree "@) {
        seq![line.subrange("worktree "@.len() as int, line.len() as int)]
    } else {
        Seq::<Seq<char>>::empty()
    }
}

/// Every worktree path in the backend's parseable listing: for each
/// newline-separated line that begins with the record prefix, what
/// follows the prefix.
pub open spec fn worktree_paths_spec(s: Seq<char>) -> Seq<Seq<char>>
    decreases s.len(),
{
    if s.len() == 0 {
        Seq::<Seq<char>>::empty()
    } else {
        let i = first_nl(s) as int;
        if i >= s.len() {
            line_path_spec(s)
        } else {
            line_path_spec(s.subrange(0, i)) + worktree_paths_spec(
                s.subrange(i + 1, s.len() as int),
            )
        }
    }
}

/// Parses the backend's parseable worktree listing into the recorded
/// paths, in the order the backend reported them.
pub fn parse_worktree_list(output: &str) -> (r: Vec<String>)
    ensures
        views_of(r@) == worktree_paths_spec(output@),
    decreases output@.len(),
{
    let n = output.unicode_len();
    if n == 0 {
        let r: Vec<String> = Vec::new();
        proof {
            assert(views_of(r@) =~= worktree_paths_spec(output@));
        }
        return r;
    }
    let mut i: usize = 0;
    while i < n && output.get_char(i) != '\n'
        invariant
            0 <= i <= n,
            n == output@.len(),
            forall|j: int| 0 <= j < i ==> output@[j] != '\n',
        decreases n - i,
    {
        i = i + 1;
    }
    proof {
        lemma_first_nl_at(output@, i as int);
    }
    let line = output.substring_char(0, i);
    let mut r: Vec<String> = Vec::new();
    if starts_with(line, "worktree ") {
        proof {
            reveal_strlit("worktree ");
        }
        let m = line.unicode_len();
        let p = line.substring_char(9, m);
        r.push(p.to_owned());
    }
    proof {
        assert(views_of(r@) =~= line_path_spec(output@.subrange(0, i as int)));
    }
    if i == n {
        proof {
            assert(output@.subrange(0, i as int) =~= output@);
            assert(views_of(r@) =~= worktree_paths_spec(output@));
        }
        return r;
    }
    let rest = output.substring_char(i + 1, n);
    let mut tail = parse_worktree_list(rest);
    r.append(&mut tail);
    proof {
        assert(views_of(r@) =~= worktree_paths_spec(output@));
    }
    r
}

} // verus!
