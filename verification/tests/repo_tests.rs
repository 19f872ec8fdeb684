use kayfabe::layout::ConvertAction;
use kayfabe::repo::{
    backend_outcome, default_branch_name, parse_worktree_list, worktree_add_args,
    worktree_list_args, worktree_remove_args, GitRepo,
};
use kayfabe::text::parse_u64;

#[test]
fn porcelain_listing_is_parsed_in_order() {
    let out = "worktree /r/main\nHEAD abcdef\nbranch refs/heads/main\n\nworktree /r/wt/a\nHEAD 123456\n";
    assert_eq!(parse_worktree_list(out), vec!["/r/main", "/r/wt/a"]);
    assert!(parse_worktree_list("").is_empty());
    assert!(parse_worktree_list("HEAD abc\nbare\n").is_empty());
}

#[test]
fn default_branch_truth_table() {
    assert_eq!(default_branch_name(true, true), "main");
    assert_eq!(default_branch_name(true, false), "main");
    assert_eq!(default_branch_name(false, true), "master");
    assert_eq!(default_branch_name(false, false), "main");
}

#[test]
fn backend_argument_lists() {
    let path = "/r/wt/x".to_string();
    let name = "x".to_string();
    let base = "main".to_string();
    assert_eq!(
        worktree_add_args(&path, &name, &base, true),
        vec!["worktree", "add", "/r/wt/x", "x"]
    );
    assert_eq!(
        worktree_add_args(&path, &name, &base, false),
        vec!["worktree", "add", "-b", "x", "/r/wt/x", "main"]
    );
    assert_eq!(worktree_remove_args(&path, false), vec!["worktree", "remove", "/r/wt/x"]);
    assert_eq!(
        worktree_remove_args(&path, true),
        vec!["worktree", "remove", "--force", "/r/wt/x"]
    );
    assert_eq!(worktree_list_args(), vec!["worktree", "list", "--porcelain"]);
}

#[test]
fn backend_failures_surface_with_context() {
    assert!(backend_outcome(true, &"/r/wt/x".to_string(), &String::new()).is_ok());
    match backend_outcome(false, &"/r/wt/x".to_string(), &"fatal: locked".to_string()) {
        Err(e) => assert_eq!(e.message(), "Git error: /r/wt/x: fatal: locked"),
        Ok(_) => panic!("a failed backend run must surface"),
    }
}

fn init_repo() -> (tempfile::TempDir, String) {
    let temp = tempfile::TempDir::new().unwrap();
    git2::Repository::init(temp.path()).unwrap();
    let path = temp.path().canonicalize().unwrap().to_string_lossy().into_owned();
    (temp, path)
}

#[test]
fn discover_opens_a_fresh_repository() {
    let (_temp, path) = init_repo();
    let repo = GitRepo::discover(&path).unwrap();
    assert_eq!(repo.root().trim_end_matches('/'), path.as_str());
    assert_eq!(repo.layout_root(), repo.root());
    assert!(!repo.is_worktree_layout());
}

#[test]
fn discover_rejects_a_plain_directory() {
    let temp = tempfile::TempDir::new().unwrap();
    let path = temp.path().canonicalize().unwrap().to_string_lossy().into_owned();
    match GitRepo::discover(&path) {
        Err(e) => {
            let msg = e.message();
            assert!(msg.starts_with("Not a git repository: "));
        }
        Ok(_) => panic!("a plain directory is not a repository"),
    }
}

#[test]
fn fresh_repository_defaults_and_branch_lookups() {
    let (_temp, path) = init_repo();
    let repo = GitRepo::discover(&path).unwrap();
    // No commits yet: neither conventional branch exists, so the default
    // falls back to the primary name.
    assert_eq!(repo.get_default_branch().unwrap(), "main");
    assert!(!repo.branch_exists(&"main".to_string()).unwrap());
    assert!(!repo.remote_branch_exists(&"main".to_string()).unwrap());
    assert!(repo.fetch().is_ok());
}

#[test]
fn conversion_plan_stages_beside_the_root() {
    let (_temp, path) = init_repo();
    let repo = GitRepo::discover(&path).unwrap();
    let plan = repo.plan_conversion().unwrap();
    assert_eq!(plan.len(), 4);
    match &plan[0] {
        ConvertAction::StageToTemp { from, to } => {
            assert_eq!(from.trim_end_matches('/'), path.as_str());
            // The staging path carries a dot-prefixed name and a random
            // suffix drawn from the documented range.
            let suffix = to.rsplit('.').next().unwrap();
            let n = parse_u64(suffix).unwrap();
            assert!((10000..99999).contains(&n));
            assert!(to.contains(".tmp-move."));
        }
        _ => panic!("conversion must stage the checkout first"),
    }
}

#[test]
fn layout_root_discovery_and_satellite_placement() {
    // A directory holding both the anchor and the satellite subtrees is a
    // layout root: discovery enters through the anchor, keeps the layout
    // root, and plans new worktrees inside the satellite container, on a
    // fresh branch from the base.
    let temp = tempfile::TempDir::new().unwrap();
    let layout_root = temp.path().canonicalize().unwrap();
    git2::Repository::init(layout_root.join("main")).unwrap();
    git2::Repository::init(layout_root.join("wt")).unwrap();
    let root_str = layout_root.to_string_lossy().into_owned();

    let repo = GitRepo::discover(&root_str).unwrap();
    assert_eq!(repo.layout_root(), &root_str);
    assert_eq!(repo.root().trim_end_matches('/'), format!("{}/main", root_str));
    assert!(repo.is_worktree_layout());

    let plan = repo.plan_create(&"feature-x".to_string()).unwrap();
    assert_eq!(plan.path, format!("{}/wt/feature-x", root_str));
    assert!(!plan.attach_existing);

    // A name whose satellite path is already taken is refused.
    git2::Repository::init(layout_root.join("wt").join("taken")).unwrap();
    match repo.plan_create(&"taken".to_string()) {
        Err(e) => assert_eq!(e.message(), "Worktree already exists: taken"),
        Ok(_) => panic!("an occupied path must be refused"),
    }
    assert_eq!(
        worktree_add_args(&plan.path, &"feature-x".to_string(), &"main".to_string(), false),
        vec!["worktree", "add", "-b", "feature-x", plan.path.as_str(), "main"]
    );

    // A second conversion of a converted layout is a planned no-op.
    let second = repo.plan_conversion().unwrap();
    assert!(second.is_empty());
}

#[test]
fn create_plan_targets_the_root_before_conversion() {
    let (_temp, path) = init_repo();
    let repo = GitRepo::discover(&path).unwrap();
    let plan = repo.plan_create(&"feature-x".to_string()).unwrap();
    assert_eq!(plan.path, format!("{}/feature-x", repo.root()));
    assert!(!plan.attach_existing);
    let target = repo.remove_target(&"feature-x".to_string());
    assert_eq!(target, plan.path);
}
