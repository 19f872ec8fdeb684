use kayfabe::agents::{extract_json_value, extract_toml_value, ProjectContext, ProjectDetector, ProjectFiles};
use kayfabe::commands::{
    agent_config_file, agents_to_generate, resolve_install_agents, validate_config_file,
    AgentInstaller, ConfigFileStatus,
};
use kayfabe::generators::{AgentGenerator, AssistantGenerator, CursorGenerator, WindsurfGenerator};
use kayfabe::ide::IDE;
use kayfabe::KayfabeError;

fn bare_files(dir_name: &str) -> ProjectFiles {
    ProjectFiles {
        dir_name: dir_name.to_string(),
        has_cargo_toml: false,
        cargo_toml: String::new(),
        has_package_json: false,
        package_json: String::new(),
        has_pyproject: false,
        has_setup_py: false,
        has_go_mod: false,
        has_tsconfig: false,
        has_pnpm_lock: false,
        has_yarn_lock: false,
        has_poetry_lock: false,
        has_pipfile: false,
    }
}

#[test]
fn manifest_value_extraction() {
    assert_eq!(
        extract_toml_value("[package]\nname = \"demo\"\nversion = \"0.1.0\"\n", "name"),
        Some("demo".to_string())
    );
    assert_eq!(extract_toml_value("[package]\nversion = \"0.1.0\"\n", "name"), None);
    assert_eq!(
        extract_toml_value("  name = \"indented\"\n", "name"),
        Some("indented".to_string())
    );
    assert_eq!(
        extract_json_value("{\n  \"name\": \"pkg\",\n  \"version\": \"1.0.0\"\n}\n", "name"),
        Some("pkg".to_string())
    );
    assert_eq!(extract_json_value("{\n  \"version\": \"1.0.0\"\n}\n", "name"), None);
}

#[test]
fn detects_a_rust_workspace() {
    let mut files = bare_files("dir");
    files.has_cargo_toml = true;
    files.cargo_toml =
        "[package]\nname = \"demo\"\n\n[workspace]\nmembers = [\"a\", \"b\"]\n".to_string();
    let c = ProjectDetector::detect(&files).unwrap();
    assert_eq!(c.name, "demo");
    assert_eq!(c.project_type, "rust");
    assert_eq!(c.build_cmd.as_deref(), Some("cargo build"));
    assert_eq!(c.test_cmd.as_deref(), Some("cargo test"));
    assert_eq!(c.lint_cmd.as_deref(), Some("cargo clippy"));
    assert!(c.is_workspace);
    assert_eq!(c.workspace_members, vec!["a", "b"]);
}

#[test]
fn detects_typescript_with_pnpm() {
    let mut files = bare_files("webapp");
    files.has_package_json = true;
    files.package_json = "{\n  \"name\": \"webapp\"\n}\n".to_string();
    files.has_tsconfig = true;
    files.has_pnpm_lock = true;
    let c = ProjectDetector::detect(&files).unwrap();
    assert_eq!(c.project_type, "typescript");
    assert_eq!(c.build_cmd.as_deref(), Some("pnpm run build"));
    assert_eq!(c.test_cmd.as_deref(), Some("pnpm run test"));
    assert_eq!(c.lint_cmd.as_deref(), Some("pnpm run lint"));
    assert!(!c.is_workspace);
}

#[test]
fn detects_python_and_go_and_fallback() {
    let mut py = bare_files("pyproj");
    py.has_pyproject = true;
    py.has_poetry_lock = true;
    let c = ProjectDetector::detect(&py).unwrap();
    assert_eq!(c.project_type, "python");
    assert_eq!(c.build_cmd, None);
    assert_eq!(c.test_cmd.as_deref(), Some("poetry run pytest"));
    assert_eq!(c.lint_cmd.as_deref(), Some("poetry run ruff check ."));

    let mut go = bare_files("gomod");
    go.has_go_mod = true;
    let c = ProjectDetector::detect(&go).unwrap();
    assert_eq!(c.project_type, "go");
    assert_eq!(c.build_cmd.as_deref(), Some("go build"));

    let c = ProjectDetector::detect(&bare_files("misc")).unwrap();
    assert_eq!(c.name, "misc");
    assert_eq!(c.project_type, "unknown");
    assert_eq!(c.build_cmd, None);
}

fn unknown_context(name: &str) -> ProjectContext {
    ProjectContext {
        name: name.to_string(),
        project_type: "unknown".to_string(),
        build_cmd: None,
        test_cmd: None,
        lint_cmd: None,
        is_workspace: false,
        workspace_members: Vec::new(),
    }
}

#[test]
fn assistant_document_exact() {
    let c = unknown_context("demo");
    let doc = AssistantGenerator.generate(&c).unwrap();
    let expected = "# Project: demo\n\n## Commands\n\n## Code Style\n- Follow project conventions\n\n\
        ## Architecture\nSingle project structure.\n\n## Workflow\n\
        - Create feature branches for new work\n- Write tests for new functionality\n\
        - Ensure all tests pass before committing\n- Keep commits atomic and well-described\n";
    assert_eq!(doc, expected);
    assert_eq!(AssistantGenerator.file_path(), "ASSISTANT.md");
}

#[test]
fn assistant_document_lists_commands_and_members() {
    let mut c = unknown_context("demo");
    c.project_type = "rust".to_string();
    c.build_cmd = Some("cargo build".to_string());
    c.is_workspace = true;
    c.workspace_members = vec!["a".to_string(), "b".to_string()];
    let doc = AssistantGenerator.generate(&c).unwrap();
    assert!(doc.contains("- `cargo build`: Build the project\n"));
    assert!(doc.contains("- Follow Rust 2021 edition idioms\n"));
    assert!(doc.contains("This is a workspace/monorepo with the following members:\n- `a`\n- `b`\n"));
}

#[test]
fn cursor_document_exact() {
    let c = unknown_context("demo");
    let doc = CursorGenerator.generate(&c).unwrap();
    let expected = "# demo Rules\n\n## Project Context\nThis is a unknown project.\n\n\
        ## Tech Stack\n- See project documentation\n\n## Conventions\n\
        - Follow existing code patterns\n- Write clear, self-documenting code\n\n\
        ## Testing\n- Write tests for new features\n- Maintain or improve test coverage\n\
        - Ensure all tests pass before committing\n";
    assert_eq!(doc, expected);
    assert_eq!(CursorGenerator.file_path(), ".cursorrules");
}

#[test]
fn windsurf_document_exact() {
    let c = unknown_context("demo");
    let doc = WindsurfGenerator.generate(&c).unwrap();
    let expected = "# demo - Windsurf Rules\n\n## Project Overview\nProject Type: unknown\n\n\
        ## Development Commands\n\n## Code Guidelines\n\
        - Maintain consistency with existing code style\n\
        - Write comprehensive tests for new features\n\
        - Document public APIs and complex logic\n- Keep functions focused and modular\n\n\
        ## Best Practices\n- Follow project-specific guidelines\n";
    assert_eq!(doc, expected);
    assert_eq!(WindsurfGenerator.file_path(), ".windsurf/rules/guidelines.md");
}

#[test]
fn available_editors_keep_probe_order() {
    let all = kayfabe::ide::available_ides(true, true, true, true, true);
    let names: Vec<&str> = all.iter().map(|i| i.command()).collect();
    assert_eq!(names, vec!["cursor", "windsurf", "idea", "code", "assistant"]);
    let some = kayfabe::ide::available_ides(false, true, false, false, true);
    let names: Vec<&str> = some.iter().map(|i| i.command()).collect();
    assert_eq!(names, vec!["windsurf", "assistant"]);
    assert!(kayfabe::ide::available_ides(false, false, false, false, false).is_empty());
}

#[test]
fn ide_parsing_ignores_case() {
    assert_eq!(IDE::parse("CURSOR").unwrap().command(), "cursor");
    assert_eq!(IDE::parse("Windsurf").unwrap().command(), "windsurf");
    assert_eq!(IDE::parse("idea").unwrap().command(), "idea");
    assert_eq!(IDE::parse("code").unwrap().command(), "code");
    assert_eq!(IDE::parse("assistant").unwrap().command(), "assistant");
    assert!(IDE::parse("emacs").is_none());
}

#[test]
fn generate_selection() {
    assert_eq!(agents_to_generate(&Some("assistant".to_string())).unwrap(), vec!["assistant"]);
    assert_eq!(
        agents_to_generate(&Some("all".to_string())).unwrap(),
        vec!["assistant", "cursor", "windsurf"]
    );
    assert_eq!(agents_to_generate(&None).unwrap(), vec!["assistant", "cursor", "windsurf"]);
    match agents_to_generate(&Some("vim".to_string())) {
        Err(KayfabeError::Other(m)) => {
            assert_eq!(m, "Unknown agent: vim. Valid options: assistant, cursor, windsurf, all");
        }
        _ => panic!("an unknown agent must be refused"),
    }
}

#[test]
fn config_file_lookup_and_validation() {
    assert_eq!(agent_config_file("assistant"), Some("ASSISTANT.md"));
    assert_eq!(agent_config_file("cursor"), Some(".cursorrules"));
    assert_eq!(agent_config_file("windsurf"), Some(".windsurf/rules/guidelines.md"));
    assert_eq!(agent_config_file("vim"), None);

    assert!(matches!(
        validate_config_file(false, &String::new()),
        ConfigFileStatus::Missing
    ));
    assert!(matches!(
        validate_config_file(true, &"  \n\t".to_string()),
        ConfigFileStatus::EmptyFile
    ));
    assert!(matches!(
        validate_config_file(true, &" x ".to_string()),
        ConfigFileStatus::Valid
    ));
}

#[test]
fn install_plan_and_selection() {
    let plan = AgentInstaller::install_plan(&"windsurf".to_string(), &"/home/u/p".to_string())
        .unwrap();
    assert_eq!(plan.path, "/home/u/p/.windsurfrules");
    assert_eq!(plan.content, AgentInstaller::generate_windsurf_config());
    assert!(plan.content.starts_with("# Kayfabe Windsurf Rules\n"));
    match AgentInstaller::install_plan(&"emacs".to_string(), &"/t".to_string()) {
        Err(KayfabeError::Other(m)) => assert_eq!(m, "Unknown agent: emacs"),
        _ => panic!("an unknown agent must be refused"),
    }

    assert_eq!(
        resolve_install_agents(true, Some(vec!["cursor".to_string()]), vec![]),
        vec!["cursor"]
    );
    assert_eq!(resolve_install_agents(true, None, vec![]), vec!["windsurf"]);
    assert_eq!(
        resolve_install_agents(false, None, vec!["windsurf".to_string()]),
        vec!["windsurf"]
    );
}
