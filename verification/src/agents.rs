use vstd::prelude::*;
use crate::error::KayfabeError;
use crate::text::{
    contains_sub, contains_sub_spec, find_char, find_sub, first_occ, first_sub, starts_with,
    starts_with_spec, trim_char, trim_char_spec, trim_ws, trim_ws_spec, view_opt, views_of,
};

verus! {

/// What a generated agent configuration says about the project: its name,
/// language, the commands a tool should run, and the workspace shape.
pub struct ProjectContext {
    pub name: String,
    pub project_type: String,
    pub build_cmd: Option<String>,
    pub test_cmd: Option<String>,
    pub lint_cmd: Option<String>,
    pub is_workspace: bool,
    pub workspace_members: Vec<String>,
}

/// The filesystem facts project detection reads: which marker files exist
/// in the project directory, the contents of the two manifests it parses,
/// and the directory's own name as the fallback project name.
pub struct ProjectFiles {
    /// The project directory's leaf name.
    pub dir_name: String,
    pub has_cargo_toml: bool,
    /// Contents of the Rust manifest; empty when absent.
    pub cargo_toml: String,
    pub has_package_json: bool,
    /// Contents of the node manifest; empty when absent.
    pub package_json: String,
    pub has_pyproject: bool,
    pub has_setup_py: bool,
    pub has_go_mod: bool,
    pub has_tsconfig: bool,
    pub has_pnpm_lock: bool,
    pub has_yarn_lock: bool,
    pub has_poetry_lock: bool,
    pub has_pipfile: bool,
}

/// The value text a matching manifest line carries: the text between the
/// first and second separators, with surrounding whitespace and quoting
/// dropped.
pub open spec fn line_value_spec(line: Seq<char>, sep: char) -> Seq<char> {
    if first_occ(line, sep) >= line.len() {
        Seq::<char>::empty()
    } else {
        let rest = line.subrange(first_occ(line, sep) as int + 1, line.len() as int);
        trim_char_spec(trim_ws_spec(rest.subrange(0, first_occ(rest, sep) as int)), '"')
    }
}

/// A line declares the key in the flat `key = value` style.
pub open spec fn toml_line_hit(line: Seq<char>, key: Seq<char>) -> bool {
    starts_with_spec(trim_ws_spec(line), key + " ="@)
}

/// The value of the first line that declares the key, scanning the
/// newline-separated content in order.
pub open spec fn extract_toml_spec(s: Seq<char>, key: Seq<char>) -> Option<Seq<char>>
    decreases s.len(),
{
    if s.len() == 0 {
        None::<Seq<char>>
    } else {
        let i = first_occ(s, '\n') as int;
        let line = if i >= s.len() {
            s
        } else {
            s.subrange(0, i)
        };
        if toml_line_hit(line, key) {
            Some(line_value_spec(line, '='))
        } else if i >= s.len() {
            None::<Seq<char>>
        } else {
            extract_toml_spec(s.subrange(i + 1, s.len() as int), key)
        }
    }
}

/// A line mentions the key in the quoted `"key": value` style and carries
/// a value separator.
pub open spec fn json_line_hit(line: Seq<char>, key: Seq<char>) -> bool {
    contains_sub_spec(line, seq!['"'] + key + seq!['"']) && first_occ(line, ':') < line.len()
}

/// The value of the first line that mentions the quoted key, scanning the
/// newline-separated content in order; the value is stripped of
/// whitespace, a trailing comma, and quoting.
pub open spec fn extract_json_spec(s: Seq<char>, key: Seq<char>) -> Option<Seq<char>>
    decreases s.len(),
{
    if s.len() == 0 {
        None::<Seq<char>>
    } else {
        let i = first_occ(s, '\n') as int;
        let line = if i >= s.len() {
            s
        } else {
            s.subrange(0, i)
        };
        if json_line_hit(line, key) {
            Some(json_line_value(line))
        } else if i >= s.len() {
            None::<Seq<char>>
        } else {
            extract_json_spec(s.subrange(i + 1, s.len() as int), key)
        }
    }
}

/// The value a matching quoted-key line carries: between the first and
/// second separators, trimmed, with a trailing comma and quoting dropped.
pub open spec fn json_line_value(line: Seq<char>) -> Seq<char> {
    if first_occ(line, ':') >= line.len() {
        Seq::<char>::empty()
    } else {
        let rest = line.subrange(first_occ(line, ':') as int + 1, line.len() as int);
        trim_char_spec(
            trim_char_spec(trim_ws_spec(rest.subrange(0, first_occ(rest, ':') as int)), ','),
            '"',
        )
    }
}

/// Computes the value text between the first and second occurrences of a
/// separator, whitespace-trimmed and unquoted.
fn line_value(line: &str, sep: char) -> (r: String)
    ensures
        r@ == line_value_spec(line@, sep),
{
    let n = line.unicode_len();
    let e = find_char(line, sep);
    if e >= n {
        proof {
            reveal_strlit("");
        }
        let r = "".to_owned();
        proof {
            assert(r@ =~= line_value_spec(line@, sep));
        }
        r
    } else {
        let rest = line.substring_char(e + 1, n);
        let b = find_char(rest, sep);
        let seg = rest.substring_char(0, b);
        let t = trim_ws(seg);
        trim_char(t.as_str(), '"')
    }
}

/// Looks up a flat `key = value` declaration in the content: the value of
/// the first declaring line, or `None` when no line declares the key.
pub fn extract_toml_value(content: &str, key: &str) -> (r: Option<String>)
    ensures
        view_opt(r) == extract_toml_spec(content@, key@),
    decreases content@.len(),
{
    let n = content.unicode_len();
    if n == 0 {
        return None;
    }
    let i = find_char(content, '\n');
    let line = content.substring_char(0, if i < n {
        i
    } else {
        n
    });
    proof {
        if i >= n {
            assert(line@ =~= content@);
        }
    }
    let trimmed = trim_ws(line);
    let prefix = key.to_owned().concat(" =");
    if starts_with(trimmed.as_str(), prefix.as_str()) {
        Some(line_value(line, '='))
    } else if i == n {
        None
    } else {
        extract_toml_value(content.substring_char(i + 1, n), key)
    }
}

/// Looks up a quoted `"key": value` declaration in the content: the value
/// of the first line that mentions the quoted key and carries a
/// separator, or `None` when no line does.
pub fn extract_json_value(content: &str, key: &str) -> (r: Option<String>)
    ensures
        view_opt(r) == extract_json_spec(content@, key@),
    decreases content@.len(),
{
    let n = content.unicode_len();
    if n == 0 {
        return None;
    }
    let i = find_char(content, '\n');
    let line = content.substring_char(0, if i < n {
        i
    } else {
        n
    });
    proof {
        if i >= n {
            assert(line@ =~= content@);
        }
    }
    let needle = "\"".to_owned().concat(key).concat("\"");
    proof {
        reveal_strlit("\"");
        assert(needle@ =~= seq!['"'] + key@ + seq!['"']);
    }
    let m = line.unicode_len();
    if contains_sub(line, needle.as_str()) && find_char(line, ':') < m {
        let e = find_char(line, ':');
        let rest = line.substring_char(e + 1, m);
        let b = find_char(rest, ':');
        let seg = rest.substring_char(0, b);
        let t = trim_ws(seg);
        let t2 = trim_char(t.as_str(), ',');
        Some(trim_char(t2.as_str(), '"'))
    } else if i == n {
        None
    } else {
        extract_json_value(content.substring_char(i + 1, n), key)
    }
}

/// The comma-separated items of a list body: each trimmed and unquoted,
/// empty items dropped.
pub open spec fn csv_items_spec(s: Seq<char>) -> Seq<Seq<char>>
    decreases s.len(),
{
    if s.len() == 0 {
        Seq::<Seq<char>>::empty()
    } else {
        let i = first_occ(s, ',') as int;
        let upto = if i >= s.len() {
            s
        } else {
            s.subrange(0, i)
        };
        let item = trim_char_spec(trim_ws_spec(upto), '"');
        let head = if item.len() > 0 {
            seq![item]
        } else {
            Seq::<Seq<char>>::empty()
        };
        if i >= s.len() {
            head
        } else {
            head + csv_items_spec(s.subrange(i + 1, s.len() as int))
        }
    }
}

/// Splits a comma-separated list body into its items, trimmed and
/// unquoted, dropping empty items.
fn csv_items(s: &str) -> (r: Vec<String>)
    ensures
        views_of(r@) == csv_items_spec(s@),
    decreases s@.len(),
{
    let n = s.unicode_len();
    let mut r: Vec<String> = Vec::new();
    if n == 0 {
        proof {
            assert(views_of(r@) =~= csv_items_spec(s@));
        }
        return r;
    }
    let i = find_char(s, ',');
    let upto = s.substring_char(0, if i < n {
        i
    } else {
        n
    });
    proof {
        if i >= n {
            assert(upto@ =~= s@);
        }
    }
    let t = trim_ws(upto);
    let item = trim_char(t.as_str(), '"');
    if item.as_str().unicode_len() > 0 {
        r.push(item);
    }
    if i < n {
        let mut rest = csv_items(s.substring_char(i + 1, n));
        r.append(&mut rest);
    }
    proof {
        assert(views_of(r@) =~= csv_items_spec(s@));
    }
    r
}

/// The workspace members a Rust manifest declares: the list body after
/// the first `members = [` up to the next closing bracket, split into its
/// items; nothing when no such declaration occurs.
pub open spec fn members_of_spec(s: Seq<char>) -> Seq<Seq<char>> {
    let k = first_sub(s, "members = ["@);
    if k + "members = ["@.len() > s.len() {
        Seq::<Seq<char>>::empty()
    } else {
        let after = s.subrange(k as int + "members = ["@.len() as int, s.len() as int);
        csv_items_spec(after.subrange(0, first_occ(after, ']') as int))
    }
}

/// Extracts the declared workspace members from a Rust manifest.
fn workspace_members(content: &str) -> (r: Vec<String>)
    ensures
        views_of(r@) == members_of_spec(content@),
{
    let n = content.unicode_len();
    let needle = "members = [";
    let k = find_sub(content, needle);
    let m = needle.unicode_len();
    if m > n || k > n - m {
        let r: Vec<String> = Vec::new();
        proof {
            assert(views_of(r@) =~= members_of_spec(content@));
        }
        r
    } else {
        let after = content.substring_char(k + m, n);
        let j = find_char(after, ']');
        let seg = after.substring_char(0, j);
        csv_items(seg)
    }
}

/// Detects what kind of project a directory holds and what a generated
/// agent configuration should say about it, from its marker files.
pub struct ProjectDetector;

impl ProjectDetector {
    /// Classifies the project by its marker files, in fixed priority
    /// order: a Rust manifest, then a node manifest, then Python
    /// packaging, then a Go module, and a bare fallback otherwise. Never
    /// fails: every directory gets some context.
    pub fn detect(files: &ProjectFiles) -> (r: Result<ProjectContext, KayfabeError>)
        ensures
            r is Ok,
            r matches Ok(c) ==> detected_context_spec(*files, c),
    {
        if files.has_cargo_toml {
            Self::detect_rust(files)
        } else if files.has_package_json {
            Self::detect_javascript(files)
        } else if files.has_pyproject || files.has_setup_py {
            Self::detect_python(files)
        } else if files.has_go_mod {
            Self::detect_go(files)
        } else {
            Ok(Self::default_context(files))
        }
    }

    /// Context for a Rust project: named by its manifest (or the
    /// directory), with the standard toolchain commands, and the
    /// workspace members when the manifest declares a workspace.
    fn detect_rust(files: &ProjectFiles) -> (r: Result<ProjectContext, KayfabeError>)
        requires
            files.has_cargo_toml,
        ensures
            r matches Ok(c) && rust_context_spec(*files, c),
    {
        let name = match extract_toml_value(files.cargo_toml.as_str(), "name") {
            Some(v) => v,
            None => files.dir_name.clone(),
        };
        let is_workspace = contains_sub(files.cargo_toml.as_str(), "[workspace]");
        let members = if is_workspace {
            workspace_members(files.cargo_toml.as_str())
        } else {
            let e: Vec<String> = Vec::new();
            proof {
                assert(views_of(e@) =~= Seq::<Seq<char>>::empty());
            }
            e
        };
        Ok(
            ProjectContext {
                name,
                project_type: "rust".to_owned(),
                build_cmd: Some("cargo build".to_owned()),
                test_cmd: Some("cargo test".to_owned()),
                lint_cmd: Some("cargo clippy".to_owned()),
                is_workspace,
                workspace_members: members,
            },
        )
    }

    /// Context for a node project: named by its manifest (or the
    /// directory), typed by the presence of a TypeScript configuration,
    /// with commands phrased for the detected package manager.
    fn detect_javascript(files: &ProjectFiles) -> (r: Result<ProjectContext, KayfabeError>)
        requires
            files.has_package_json,
        ensures
            r matches Ok(c) && js_context_spec(*files, c),
    {
        let name = match extract_json_value(files.package_json.as_str(), "name") {
            Some(v) => v,
            None => files.dir_name.clone(),
        };
        let project_type = if files.has_tsconfig {
            "typescript".to_owned()
        } else {
            "javascript".to_owned()
        };
        let pm = if files.has_pnpm_lock {
            "pnpm"
        } else if files.has_yarn_lock {
            "yarn"
        } else {
            "npm"
        };
        Ok(
            ProjectContext {
                name,
                project_type,
                build_cmd: Some(pm.to_owned().concat(" run build")),
                test_cmd: Some(pm.to_owned().concat(" run test")),
                lint_cmd: Some(pm.to_owned().concat(" run lint")),
                is_workspace: contains_sub(files.package_json.as_str(), "\"workspaces\""),
                workspace_members: Vec::new(),
            },
        )
    }

    /// Context for a Python project: named by the directory, with test
    /// and lint commands phrased for the detected environment manager and
    /// no build command.
    fn detect_python(files: &ProjectFiles) -> (r: Result<ProjectContext, KayfabeError>)
        ensures
            r matches Ok(c) && python_context_spec(*files, c),
    {
        let (test_cmd, lint_cmd) = if files.has_poetry_lock {
            ("poetry run pytest".to_owned(), "poetry run ruff check .".to_owned())
        } else if files.has_pipfile {
            ("pipenv run pytest".to_owned(), "pipenv run ruff check .".to_owned())
        } else {
            ("python -m pytest".to_owned(), "ruff check .".to_owned())
        };
        Ok(
            ProjectContext {
                name: files.dir_name.clone(),
                project_type: "python".to_owned(),
                build_cmd: None,
                test_cmd: Some(test_cmd),
                lint_cmd: Some(lint_cmd),
                is_workspace: false,
                workspace_members: Vec::new(),
            },
        )
    }

    /// Context for a Go project: named by the directory, with the
    /// standard Go toolchain commands.
    fn detect_go(files: &ProjectFiles) -> (r: Result<ProjectContext, KayfabeError>)
        ensures
            r matches Ok(c) && go_context_spec(*files, c),
    {
        Ok(
            ProjectContext {
                name: files.dir_name.clone(),
                project_type: "go".to_owned(),
                build_cmd: Some("go build".to_owned()),
                test_cmd: Some("go test ./...".to_owned()),
                lint_cmd: Some("golangci-lint run".to_owned()),
                is_workspace: false,
                workspace_members: Vec::new(),
            },
        )
    }

    /// Context for an unrecognized project: named by the directory, with
    /// no commands.
    fn default_context(files: &ProjectFiles) -> (r: ProjectContext)
        ensures
            unknown_context_spec(*files, r),
    {
        ProjectContext {
            name: files.dir_name.clone(),
            project_type: "unknown".to_owned(),
            build_cmd: None,
            test_cmd: None,
            lint_cmd: None,
            is_workspace: false,
            workspace_members: Vec::new(),
        }
    }
}

/// The package manager a node project's lock files select.
pub open spec fn package_manager_spec(files: ProjectFiles) -> Seq<char> {
    if files.has_pnpm_lock {
        "pnpm"@
    } else if files.has_yarn_lock {
        "yarn"@
    } else {
        "npm"@
    }
}

/// An extracted name, or the directory name when none was extracted.
pub open spec fn name_or_dir(extracted: Option<Seq<char>>, dir: Seq<char>) -> Seq<char> {
    match extracted {
        Some(v) => v,
        None => dir,
    }
}

/// The context a Rust manifest yields: named by the manifest's `name`
/// declaration (or the directory), typed as Rust with the standard
/// toolchain commands, and carrying the workspace facts the manifest
/// declares.
pub open spec fn rust_context_spec(files: ProjectFiles, c: ProjectContext) -> bool {
    &&& c.name@ == name_or_dir(extract_toml_spec(files.cargo_toml@, "name"@), files.dir_name@)
    &&& c.project_type@ == "rust"@
    &&& c.build_cmd matches Some(b) && b@ == "cargo build"@
    &&& c.test_cmd matches Some(t) && t@ == "cargo test"@
    &&& c.lint_cmd matches Some(l) && l@ == "cargo clippy"@
    &&& c.is_workspace == contains_sub_spec(files.cargo_toml@, "[workspace]"@)
    &&& views_of(c.workspace_members@) == (if contains_sub_spec(
        files.cargo_toml@,
        "[workspace]"@,
    ) {
        members_of_spec(files.cargo_toml@)
    } else {
        Seq::<Seq<char>>::empty()
    })
}

/// The context a node manifest yields: named by the manifest's `name`
/// declaration (or the directory), typed by the presence of a TypeScript
/// configuration, with commands phrased for the detected package manager.
pub open spec fn js_context_spec(files: ProjectFiles, c: ProjectContext) -> bool {
    &&& c.name@ == name_or_dir(extract_json_spec(files.package_json@, "name"@), files.dir_name@)
    &&& c.project_type@ == (if files.has_tsconfig {
        "typescript"@
    } else {
        "javascript"@
    })
    &&& c.build_cmd matches Some(b) && b@ == package_manager_spec(files) + " run build"@
    &&& c.test_cmd matches Some(t) && t@ == package_manager_spec(files) + " run test"@
    &&& c.lint_cmd matches Some(l) && l@ == package_manager_spec(files) + " run lint"@
    &&& c.is_workspace == contains_sub_spec(files.package_json@, "\"workspaces\""@)
    &&& c.workspace_members@.len() == 0
}

/// The context Python packaging yields: named by the directory, with test
/// and lint commands phrased for the detected environment manager and no
/// build command.
pub open spec fn python_context_spec(files: ProjectFiles, c: ProjectContext) -> bool {
    &&& c.name == files.dir_name
    &&& c.project_type@ == "python"@
    &&& c.build_cmd is None
    &&& c.test_cmd matches Some(t) && t@ == (if files.has_poetry_lock {
        "poetry run pytest"@
    } else if files.has_pipfile {
        "pipenv run pytest"@
    } else {
        "python -m pytest"@
    })
    &&& c.lint_cmd matches Some(l) && l@ == (if files.has_poetry_lock {
        "poetry run ruff check ."@
    } else if files.has_pipfile {
        "pipenv run ruff check ."@
    } else {
        "ruff check ."@
    })
    &&& c.is_workspace == false
    &&& c.workspace_members@.len() == 0
}

/// The context a Go module yields: named by the directory, with the
/// standard Go toolchain commands.
pub open spec fn go_context_spec(files: ProjectFiles, c: ProjectContext) -> bool {
    &&& c.name == files.dir_name
    &&& c.project_type@ == "go"@
    &&& c.build_cmd matches Some(b) && b@ == "go build"@
    &&& c.test_cmd matches Some(t) && t@ == "go test ./..."@
    &&& c.lint_cmd matches Some(l) && l@ == "golangci-lint run"@
    &&& c.is_workspace == false
    &&& c.workspace_members@.len() == 0
}

/// The context an unrecognized directory yields: named by the directory,
/// with no commands and no workspace.
pub open spec fn unknown_context_spec(files: ProjectFiles, c: ProjectContext) -> bool {
    &&& c.name == files.dir_name
    &&& c.project_type@ == "unknown"@
    &&& c.build_cmd is None
    &&& c.test_cmd is None
    &&& c.lint_cmd is None
    &&& c.is_workspace == false
    &&& c.workspace_members@.len() == 0
}

/// The whole context detection reports, per marker-file priority: a Rust
/// manifest first, then a node manifest, then Python packaging, then a Go
/// module, and the bare fallback otherwise.
pub open spec fn detected_context_spec(files: ProjectFiles, c: ProjectContext) -> bool {
    if files.has_cargo_toml {
        rust_context_spec(files, c)
    } else if files.has_package_json {
        js_context_spec(files, c)
    } else if files.has_pyproject || files.has_setup_py {
        python_context_spec(files, c)
    } else if files.has_go_mod {
        go_context_spec(files, c)
    } else {
        unknown_context_spec(files, c)
    }
}

impl ProjectContext {
    /// Detects the context for a project directory from its marker files.
    pub fn detect(files: &ProjectFiles) -> (r: Result<ProjectContext, KayfabeError>)
        ensures
            r is Ok,
            r matches Ok(c) ==> detected_context_spec(*files, c),
    {
        ProjectDetector::detect(files)
    }
}

} // verus!
