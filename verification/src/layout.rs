use vstd::prelude::*;
use crate::error::KayfabeError;
use crate::probes::{canonicalize_path, path_exists, path_is_dir};
use crate::text::{dec_seq, join_spec, parent_of, path_join, u64_to_dec};

verus! {

/// The managed root of a repository: the directory that holds the marker
/// directory, the anchor checkout under `main/`, and the satellite
/// worktrees under `wt/`.
pub struct KayfabeRoot;

impl KayfabeRoot {
    /// Finds the managed root by walking ancestors of the given path
    /// until one holds a marker directory. The answer depends on the
    /// filesystem; what is guaranteed is that a found root is an absolute
    /// path and that failure is reported as the caller's error, never as
    /// a guessed root.
    pub fn discover(start_path: &String) -> (r: Result<String, KayfabeError>)
        ensures
            r matches Ok(p) ==> p@.len() >= 1 && p@[0] == '/',
            r matches Err(e) ==> (e is Io || e is Other),
    {
        let mut current = match canonicalize_path(start_path.as_str()) {
            Ok(p) => p,
            Err(m) => {
                return Err(KayfabeError::Io(m));
            },
        };
        loop
            invariant
                current@.len() >= 1,
                current@[0] == '/',
            decreases current@.len(),
        {
            let marker = path_join(current.as_str(), ".kayfabe");
            if path_exists(marker.as_str()) && path_is_dir(marker.as_str()) {
                return Ok(current);
            }
            match parent_of(current.as_str()) {
                Some(parent) => {
                    current = parent;
                },
                None => {
                    break;
                },
            }
        }
        Err(
            KayfabeError::Other(
                "Not in a kayfabe-managed repository. Run 'kayfabe init' first.".to_owned(),
            ),
        )
    }

    /// Whether the path lies inside a managed repository.
    pub fn is_kayfabe_repo(path: &String) -> bool {
        match Self::discover(path) {
            Ok(_) => true,
            Err(_) => false,
        }
    }

    /// The satellite container under a managed root.
    pub fn worktree_dir(root: &String) -> (r: String)
        ensures
            r@ == join_spec(root@, "wt"@),
    {
        path_join(root.as_str(), "wt")
    }

    /// The anchor checkout under a managed root.
    pub fn main_dir(root: &String) -> (r: String)
        ensures
            r@ == join_spec(root@, "main"@),
    {
        path_join(root.as_str(), "main")
    }
}

/// One filesystem step of the layout conversion, in the order they must
/// run. The staged protocol leaves the tree recoverable if interrupted:
/// after the first step the whole checkout sits intact at the temporary
/// path; the remaining steps only rebuild the root around it.
pub enum ConvertAction {
    /// Rename the flat checkout aside to a temporary sibling path.
    StageToTemp { from: String, to: String },
    /// Recreate the now-vacated root as an empty directory.
    RecreateRoot { path: String },
    /// Rename the staged checkout to its final anchor location.
    MoveToMain { from: String, to: String },
    /// Create the empty satellite container.
    CreateWorktreeDir { path: String },
}

/// The temporary sibling path the checkout is staged at: a dot-prefixed
/// name beside the root, carrying a random suffix so a crashed earlier
/// attempt never collides.
pub open spec fn tmp_stage_spec(parent: Seq<char>, name: Seq<char>, suffix: int) -> Seq<char> {
    join_spec(parent, "."@ + name + ".tmp-move."@ + dec_seq(suffix))
}

/// The message refusing an ambiguous root.
pub open spec fn ambiguous_layout_msg() -> Seq<char> {
    "Repo is a git checkout AND already has a main/ dir. Refusing to guess."@
}

/// The four-step plan that converts a flat checkout at `root` into the
/// dual-root layout, or nothing when the layout is already converted, or
/// a refusal when the root is ambiguous. `parent` and `name` are the
/// root's parent directory and leaf name; `tmp_suffix` disambiguates the
/// staging path.
pub fn conversion_plan(
    root: &String,
    parent: &String,
    name: &String,
    tmp_suffix: u64,
    already_converted: bool,
    has_main_dir: bool,
) -> (r: Result<Vec<ConvertAction>, KayfabeError>)
    ensures
        already_converted ==> (r matches Ok(v) && v@.len() == 0),
        !already_converted && has_main_dir ==> (r matches Err(e) && e matches KayfabeError::Other(
            m,
        ) && m@ == ambiguous_layout_msg()),
        !already_converted && !has_main_dir ==> (r matches Ok(v) && {
            &&& v@.len() == 4
            &&& v@[0] matches ConvertAction::StageToTemp { from, to } && from == root && to@
                == tmp_stage_spec(parent@, name@, tmp_suffix as int)
            &&& v@[1] matches ConvertAction::RecreateRoot { path } && path == root
            &&& v@[2] matches ConvertAction::MoveToMain { from, to } && from@ == tmp_stage_spec(
                parent@,
                name@,
                tmp_suffix as int,
            ) && to@ == join_spec(root@, "main"@)
            &&& v@[3] matches ConvertAction::CreateWorktreeDir { path } && path@ == join_spec(
                root@,
                "wt"@,
            )
        }),
{
    if already_converted {
        return Ok(Vec::new());
    }
    if has_main_dir {
        return Err(
            KayfabeError::Other(
                "Repo is a git checkout AND already has a main/ dir. Refusing to guess.".to_owned(),
            ),
        );
    }
    let tmp_name = ".".to_owned().concat(name.as_str()).concat(".tmp-move.").concat(
        u64_to_dec(tmp_suffix).as_str(),
    );
    let tmp = path_join(parent.as_str(), tmp_name.as_str());
    proof {
        assert(tmp@ =~= tmp_stage_spec(parent@, name@, tmp_suffix as int));
    }
    let mut actions: Vec<ConvertAction> = Vec::new();
    actions.push(ConvertAction::StageToTemp { from: root.clone(), to: tmp.clone() });
    actions.push(ConvertAction::RecreateRoot { path: root.clone() });
    actions.push(
        ConvertAction::MoveToMain { from: tmp, to: path_join(root.as_str(), "main") },
    );
    actions.push(ConvertAction::CreateWorktreeDir { path: path_join(root.as_str(), "wt") });
    Ok(actions)
}

/// What conversion observes and produces of a root's directory shape, for
/// stating the conversion laws: whether the anchor and satellite subtrees
/// exist, and whether an anchor is nested inside the anchor (which a
/// correct conversion never produces).
pub struct LayoutModel {
    pub has_main_dir: bool,
    pub has_wt_dir: bool,
    pub nested_main: bool,
}

/// A root is converted once both subtrees exist.
pub open spec fn model_converted(m: LayoutModel) -> bool {
    m.has_main_dir && m.has_wt_dir
}

/// The directory shape conversion leaves behind: an already-converted
/// root is untouched; an unconverted root with a stray anchor directory
/// is refused; any other root becomes the dual-root shape with nothing
/// nested.
pub open spec fn convert_outcome(m: LayoutModel) -> Option<LayoutModel> {
    if model_converted(m) {
        Some(m)
    } else if m.has_main_dir {
        None
    } else {
        Some(LayoutModel { has_main_dir: true, has_wt_dir: true, nested_main: false })
    }
}

/// Conversion idempotence law: converting a second time changes nothing —
/// whatever shape the first conversion produced, the second reproduces it
/// exactly, and a fresh conversion never nests an anchor inside the
/// anchor.
pub proof fn lemma_convert_idempotent(m: LayoutModel)
    ensures
        convert_outcome(m) matches Some(m1) ==> convert_outcome(m1) == Some(m1),
        !model_converted(m) && !m.has_main_dir ==> (convert_outcome(m) matches Some(m1)
            && model_converted(m1) && !m1.nested_main),
{
}

} // verus!
