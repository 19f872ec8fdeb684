use kayfabe::layout::{conversion_plan, ConvertAction, KayfabeRoot};
use kayfabe::KayfabeError;

#[test]
fn test_worktree_dir() {
    let root = "/test/repo".to_string();
    let wt_dir = KayfabeRoot::worktree_dir(&root);
    assert_eq!(wt_dir, "/test/repo/wt");
}

#[test]
fn test_main_dir() {
    let root = "/test/repo".to_string();
    let main = KayfabeRoot::main_dir(&root);
    assert_eq!(main, "/test/repo/main");
}

#[test]
fn test_discover_not_in_kayfabe_repo() {
    let temp_dir = tempfile::TempDir::new().unwrap();
    let path = temp_dir.path().to_string_lossy().into_owned();
    let result = KayfabeRoot::discover(&path);
    assert!(result.is_err());
}

#[test]
fn discover_of_a_missing_path_reports_the_io_error() {
    let result = KayfabeRoot::discover(&"/definitely/not/a/real/path/anywhere".to_string());
    match result {
        Err(KayfabeError::Io(_)) => {}
        _ => panic!("a missing start path cannot be resolved"),
    }
}

#[test]
fn conversion_of_converted_root_plans_nothing() {
    let plan = conversion_plan(
        &"/srv/r".to_string(),
        &"/srv".to_string(),
        &"r".to_string(),
        12345,
        true,
        false,
    )
    .unwrap();
    assert!(plan.is_empty());
}

#[test]
fn conversion_refuses_ambiguous_root() {
    let r = conversion_plan(
        &"/srv/r".to_string(),
        &"/srv".to_string(),
        &"r".to_string(),
        12345,
        false,
        true,
    );
    match r {
        Err(KayfabeError::Other(m)) => {
            assert_eq!(
                m,
                "Repo is a git checkout AND already has a main/ dir. Refusing to guess."
            );
        }
        _ => panic!("an ambiguous root must be refused"),
    }
}

#[test]
fn conversion_plans_the_staged_protocol() {
    let plan = conversion_plan(
        &"/srv/r".to_string(),
        &"/srv".to_string(),
        &"r".to_string(),
        12345,
        false,
        false,
    )
    .unwrap();
    assert_eq!(plan.len(), 4);
    match &plan[0] {
        ConvertAction::StageToTemp { from, to } => {
            assert_eq!(from, "/srv/r");
            assert_eq!(to, "/srv/.r.tmp-move.12345");
        }
        _ => panic!("first step must stage the checkout aside"),
    }
    match &plan[1] {
        ConvertAction::RecreateRoot { path } => assert_eq!(path, "/srv/r"),
        _ => panic!("second step must recreate the root"),
    }
    match &plan[2] {
        ConvertAction::MoveToMain { from, to } => {
            assert_eq!(from, "/srv/.r.tmp-move.12345");
            assert_eq!(to, "/srv/r/main");
        }
        _ => panic!("third step must move the checkout to the anchor slot"),
    }
    match &plan[3] {
        ConvertAction::CreateWorktreeDir { path } => assert_eq!(path, "/srv/r/wt"),
        _ => panic!("fourth step must create the satellite container"),
    }
}

#[test]
fn converting_twice_plans_nothing_the_second_time() {
    // After a successful conversion the root is converted, so a second
    // conversion is a planned no-op: the directory structure stays
    // exactly as the first conversion left it, and nothing re-nests.
    let first = conversion_plan(
        &"/srv/r".to_string(),
        &"/srv".to_string(),
        &"r".to_string(),
        54321,
        false,
        false,
    )
    .unwrap();
    assert_eq!(first.len(), 4);
    let second = conversion_plan(
        &"/srv/r".to_string(),
        &"/srv".to_string(),
        &"r".to_string(),
        99998,
        true,
        false,
    )
    .unwrap();
    assert!(second.is_empty());
}
