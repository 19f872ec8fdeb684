use kayfabe::config::{Config, GlobalConfig, ProjectConfig};
use kayfabe::template::{assemble_template, replace_all, Template, TemplateManager};
use kayfabe::KayfabeError;

#[test]
fn replacement_is_global_and_left_to_right() {
    assert_eq!(replace_all("a-a-a", "a", "bb"), "bb-bb-bb");
    assert_eq!(replace_all("nothing here", "zz", "y"), "nothing here");
    assert_eq!(replace_all("aaa", "aa", "b"), "ba");
}

#[test]
fn rendering_substitutes_placeholders() {
    let t = Template {
        name: "greet".to_string(),
        description: String::new(),
        content: "Hello {{name}}, welcome to {{name}}'s {{place}}!".to_string(),
        variables: Vec::new(),
    };
    let pairs = vec![
        ("name".to_string(), "World".to_string()),
        ("place".to_string(), "garden".to_string()),
    ];
    assert_eq!(
        t.render(&pairs).unwrap(),
        "Hello World, welcome to World's garden!"
    );
    let none: Vec<(String, String)> = Vec::new();
    assert_eq!(t.render(&none).unwrap(), t.content);
}

#[test]
fn template_assembly_defaults() {
    let t = assemble_template(None, None, None);
    assert_eq!(t.name, "unknown");
    assert_eq!(t.description, "");
    assert_eq!(t.content, "");
    let t = assemble_template(Some("n".to_string()), Some("d".to_string()), Some("c".to_string()));
    assert_eq!((t.name.as_str(), t.description.as_str(), t.content.as_str()), ("n", "d", "c"));
}

#[test]
fn stored_template_round_trip() {
    let t = Template {
        name: "t".to_string(),
        description: "d".to_string(),
        content: "body".to_string(),
        variables: Vec::new(),
    };
    let text = TemplateManager::template_file_content(&t);
    assert_eq!(
        text,
        "name = \"t\"\ndescription = \"d\"\n\n[content]\nvalue = \"\"\"\nbody\n\"\"\""
    );
    let parsed = TemplateManager::parse_template(&text).unwrap();
    assert_eq!(parsed.name, "t");
    assert_eq!(parsed.description, "d");
    assert_eq!(parsed.content, "body\n");
}

#[test]
fn unparseable_template_is_refused() {
    match TemplateManager::parse_template("= not toml =") {
        Err(KayfabeError::Other(m)) => assert!(m.starts_with("Failed to parse template: ")),
        _ => panic!("junk must be refused"),
    }
}

#[test]
fn template_paths() {
    assert_eq!(
        TemplateManager::template_path(&"/cfg/kayfabe/templates".to_string(), &"t".to_string()),
        "/cfg/kayfabe/templates/t.toml"
    );
    // The store and settings paths depend on the environment; whichever
    // way they resolve, the two agree on their base directory.
    match (TemplateManager::templates_dir(), GlobalConfig::path()) {
        (Ok(t), Ok(g)) => {
            assert!(t.ends_with("/kayfabe/templates"));
            assert!(g.ends_with("/kayfabe/config.toml"));
        }
        (Err(_), Err(_)) => {}
        _ => panic!("the two paths must resolve alike"),
    }
}

#[test]
fn default_settings() {
    let c = Config::default();
    assert_eq!(c.defaults.ide, "windsurf");
    assert_eq!(c.defaults.base_branch, "main");
    assert!(c.defaults.auto_fetch);
    assert_eq!(c.worktree.layout, "standard");
    assert_eq!(c.worktree.naming, "branch");
    assert_eq!(c.worktree.stale_days, 14);
    assert!(!c.worktree.auto_cleanup);
    assert!(c.worktree.protect_unmerged);
    assert_eq!(c.agents.len(), 1);
    assert_eq!(c.agents[0].0, "windsurf");
    assert!(c.agents[0].1.enabled);
    assert_eq!(c.agents[0].1.template, "default");
    assert_eq!(c.agents[0].1.location, ".windsurfrules");
    assert!(c.ui.color && c.ui.progress && c.ui.interactive);

    let p = ProjectConfig::default();
    assert!(p.project.name.is_none());
    assert!(p.hooks.post_create.is_empty());
}

#[test]
fn project_config_path() {
    assert_eq!(
        ProjectConfig::path(&"/r".to_string()),
        "/r/.kayfabe/config.toml"
    );
}

#[test]
fn error_messages_render_with_their_prefixes() {
    assert_eq!(
        KayfabeError::WorktreeExists("x".to_string()).message(),
        "Worktree already exists: x"
    );
    assert_eq!(
        KayfabeError::WorktreeNotFound("y".to_string()).message(),
        "Worktree not found: y"
    );
    assert_eq!(
        KayfabeError::NotARepository("/p".to_string()).message(),
        "Not a git repository: /p"
    );
    assert_eq!(KayfabeError::Git("boom".to_string()).message(), "Git error: boom");
    assert_eq!(KayfabeError::Io("io".to_string()).message(), "IO error: io");
    assert_eq!(KayfabeError::Dialog("d".to_string()).message(), "Dialog error: d");
    assert_eq!(
        KayfabeError::BranchNotFound("b".to_string()).message(),
        "Branch not found: b"
    );
    assert_eq!(KayfabeError::IdeNotFound("i".to_string()).message(), "IDE not found: i");
    assert_eq!(KayfabeError::Cancelled.message(), "Operation cancelled by user");
    assert_eq!(KayfabeError::Other("free".to_string()).message(), "free");
}
