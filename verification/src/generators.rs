use vstd::prelude::*;
use crate::agents::ProjectContext;
use crate::error::KayfabeError;
use crate::text::views_of;

verus! {

/// A generator of one agent's configuration file: the rendered text for a
/// project, and where the file lives relative to the checkout root.
pub trait AgentGenerator {
    fn generate(&self, context: &ProjectContext) -> (r: Result<String, KayfabeError>);

    fn file_path(&self) -> (r: &'static str);
}

/// One bulleted line per workspace member, in order.
pub open spec fn members_lines(ms: Seq<Seq<char>>) -> Seq<char>
    decreases ms.len(),
{
    if ms.len() == 0 {
        Seq::<char>::empty()
    } else {
        members_lines(ms.drop_last()) + "- `"@ + ms.last() + "`\n"@
    }
}

/// Appends one bulleted line per workspace member to the text.
#[verifier::rlimit(30)]
fn append_members_lines(content: &mut String, members: &Vec<String>)
    ensures
        final (content)@ == old(content)@ + members_lines(views_of(members@)),
{
    let ghost base = content@;
    let mut i: usize = 0;
    while i < members.len()
        invariant
            0 <= i <= members@.len(),
            content@ == base + members_lines(views_of(members@.take(i as int))),
        decreases members@.len() - i,
    {
        content.append("- `");
        content.append(members[i].as_str());
        content.append("`\n");
        proof {
            let v1 = views_of(members@.take(i + 1 as int));
            assert(v1.drop_last() =~= views_of(members@.take(i as int)));
            assert(v1.last() == members@[i as int]@);
            assert(content@ =~= base + members_lines(v1));
        }
        i = i + 1;
    }
    proof {
        assert(members@.take(members@.len() as int) =~= members@);
    }
}

/// The command lines of the primary agent document: one bullet per
/// configured command.
pub open spec fn assistant_commands(c: ProjectContext) -> Seq<char> {
    "## Commands\n"@ + (match c.build_cmd {
        Some(b) => "- `"@ + b@ + "`: Build the project\n"@,
        None => Seq::<char>::empty(),
    }) + (match c.test_cmd {
        Some(t) => "- `"@ + t@ + "`: Run tests\n"@,
        None => Seq::<char>::empty(),
    }) + (match c.lint_cmd {
        Some(l) => "- `"@ + l@ + "`: Run linter\n"@,
        None => Seq::<char>::empty(),
    }) + "\n"@
}

/// The style section of the primary agent document, per project type.
pub open spec fn assistant_style(pt: Seq<char>) -> Seq<char> {
    "## Code Style\n"@ + (if pt == "rust"@ {
        "- Follow Rust 2021 edition idioms\n"@
            + "- Use `thiserror` for library errors, `anyhow` for applications\n"@
            + "- Prefer `impl Trait` over generics where appropriate\n"@
            + "- Run `cargo fmt` before committing\n"@
    } else if pt == "typescript"@ || pt == "javascript"@ {
        "- Use TypeScript strict mode\n"@ + "- Prefer functional patterns\n"@
            + "- Use explicit return types for exported functions\n"@
    } else if pt == "python"@ {
        "- Type hints required for public functions\n"@
            + "- Docstrings for public modules/classes/functions\n"@
            + "- Follow PEP 8 style guide\n"@
    } else if pt == "go"@ {
        "- Follow effective Go guidelines\n"@ + "- Use gofmt for formatting\n"@
            + "- Write idiomatic Go code\n"@
    } else {
        "- Follow project conventions\n"@
    }) + "\n"@
}

/// The architecture section of the primary agent document.
pub open spec fn assistant_architecture(c: ProjectContext) -> Seq<char> {
    "## Architecture\n"@ + (if c.is_workspace {
        "This is a workspace/monorepo with the following members:\n"@ + members_lines(
            views_of(c.workspace_members@),
        )
    } else {
        "Single project structure.\n"@
    }) + "\n"@
}

/// The fixed workflow section of the primary agent document.
pub open spec fn assistant_workflow() -> Seq<char> {
    "## Workflow\n"@ + "- Create feature branches for new work\n"@
        + "- Write tests for new functionality\n"@ + "- Ensure all tests pass before committing\n"@
        + "- Keep commits atomic and well-described\n"@
}

/// The whole primary agent document for a project.
pub open spec fn assistant_doc(c: ProjectContext) -> Seq<char> {
    "# Project: "@ + c.name@ + "\n\n"@ + assistant_commands(c) + assistant_style(c.project_type@)
        + assistant_architecture(c) + assistant_workflow()
}

/// Appends the style section of the primary agent document to the text.
#[verifier::rlimit(30)]
fn append_assistant_style(content: &mut String, project_type: &str)
    ensures
        final (content)@ == old(content)@ + assistant_style(project_type@),
{
    content.append("## Code Style\n");
    if crate::text::str_eq(project_type, "rust") {
        content.append("- Follow Rust 2021 edition idioms\n");
        content.append("- Use `thiserror` for library errors, `anyhow` for applications\n");
        content.append("- Prefer `impl Trait` over generics where appropriate\n");
        content.append("- Run `cargo fmt` before committing\n");
    } else if crate::text::str_eq(project_type, "typescript") || crate::text::str_eq(
        project_type,
        "javascript",
    ) {
        content.append("- Use TypeScript strict mode\n");
        content.append("- Prefer functional patterns\n");
        content.append("- Use explicit return types for exported functions\n");
    } else if crate::text::str_eq(project_type, "python") {
        content.append("- Type hints required for public functions\n");
        content.append("- Docstrings for public modules/classes/functions\n");
        content.append("- Follow PEP 8 style guide\n");
    } else if crate::text::str_eq(project_type, "go") {
        content.append("- Follow effective Go guidelines\n");
        content.append("- Use gofmt for formatting\n");
        content.append("- Write idiomatic Go code\n");
    } else {
        content.append("- Follow project conventions\n");
    }
    content.append("\n");
    proof {
        assert(content@ =~= old(content)@ + assistant_style(project_type@));
    }
}

/// Generates the primary agent's project document.
pub struct AssistantGenerator;

impl AgentGenerator for AssistantGenerator {
    /// Renders the document exactly as `assistant_doc` states it.
    #[verifier::rlimit(50)]
    fn generate(&self, context: &ProjectContext) -> (r: Result<String, KayfabeError>)
        ensures
            r matches Ok(s) && s@ == assistant_doc(*context),
    {
        let mut content = "# Project: ".to_owned();
        content.append(context.name.as_str());
        content.append("\n\n");
        content.append("## Commands\n");
        match &context.build_cmd {
            Some(b) => {
                content.append("- `");
                content.append(b.as_str());
                content.append("`: Build the project\n");
            },
            None => {},
        }
        match &context.test_cmd {
            Some(t) => {
                content.append("- `");
                content.append(t.as_str());
                content.append("`: Run tests\n");
            },
            None => {},
        }
        match &context.lint_cmd {
            Some(l) => {
                content.append("- `");
                content.append(l.as_str());
                content.append("`: Run linter\n");
            },
            None => {},
        }
        content.append("\n");
        proof {
            assert(content@ =~= "# Project: "@ + context.name@ + "\n\n"@ + assistant_commands(
                *context,
            ));
        }
        append_assistant_style(&mut content, context.project_type.as_str());
        let ghost head2 = content@;
        proof {
            assert(head2 == "# Project: "@ + context.name@ + "\n\n"@ + assistant_commands(
                *context,
            ) + assistant_style(context.project_type@));
        }
        content.append("## Architecture\n");
        if context.is_workspace {
            content.append("This is a workspace/monorepo with the following members:\n");
            append_members_lines(&mut content, &context.workspace_members);
        } else {
            content.append("Single project structure.\n");
        }
        content.append("\n");
        proof {
            assert(content@ =~= head2 + assistant_architecture(*context));
        }
        content.append("## Workflow\n");
        content.append("- Create feature branches for new work\n");
        content.append("- Write tests for new functionality\n");
        content.append("- Ensure all tests pass before committing\n");
        content.append("- Keep commits atomic and well-described\n");
        proof {
            assert(content@ =~= assistant_doc(*context));
        }
        Ok(content)
    }

    fn file_path(&self) -> (r: &'static str)
        ensures
            r@ == "ASSISTANT.md"@,
    {
        "ASSISTANT.md"
    }
}

/// The tech-stack section of the cursor rules, per project type.
pub open spec fn cursor_stack(pt: Seq<char>) -> Seq<char> {
    "## Tech Stack\n"@ + (if pt == "rust"@ {
        "- Language: Rust\n"@ + "- Build System: Cargo\n"@ + "- Testing: Built-in test framework\n"@
    } else if pt == "typescript"@ {
        "- Language: TypeScript\n"@ + "- Runtime: Node.js\n"@ + "- Build: tsc/bundler\n"@
    } else if pt == "javascript"@ {
        "- Language: JavaScript\n"@ + "- Runtime: Node.js\n"@
    } else if pt == "python"@ {
        "- Language: Python\n"@ + "- Testing: pytest\n"@ + "- Linting: ruff\n"@
    } else if pt == "go"@ {
        "- Language: Go\n"@ + "- Build: go build\n"@ + "- Testing: go test\n"@
    } else {
        "- See project documentation\n"@
    }) + "\n"@
}

/// The conventions section of the cursor rules.
pub open spec fn cursor_conventions(c: ProjectContext) -> Seq<char> {
    "## Conventions\n"@ + (match c.test_cmd {
        Some(t) => "- Run tests with: `"@ + t@ + "`\n"@,
        None => Seq::<char>::empty(),
    }) + (match c.lint_cmd {
        Some(l) => "- Run linter with: `"@ + l@ + "`\n"@,
        None => Seq::<char>::empty(),
    }) + "- Follow existing code patterns\n"@ + "- Write clear, self-documenting code\n"@ + "\n"@
}

/// The whole cursor rules document for a project.
pub open spec fn cursor_doc(c: ProjectContext) -> Seq<char> {
    "# "@ + c.name@ + " Rules\n\n"@ + "## Project Context\n"@ + "This is a "@ + c.project_type@
        + " project.\n\n"@ + cursor_stack(c.project_type@) + cursor_conventions(c) + "## Testing\n"@
        + "- Write tests for new features\n"@ + "- Maintain or improve test coverage\n"@
        + "- Ensure all tests pass before committing\n"@
}

/// Appends the tech-stack section of the cursor rules to the text.
#[verifier::rlimit(30)]
fn append_cursor_stack(content: &mut String, project_type: &str)
    ensures
        final (content)@ == old(content)@ + cursor_stack(project_type@),
{
    content.append("## Tech Stack\n");
    if crate::text::str_eq(project_type, "rust") {
        content.append("- Language: Rust\n");
        content.append("- Build System: Cargo\n");
        content.append("- Testing: Built-in test framework\n");
    } else if crate::text::str_eq(project_type, "typescript") {
        content.append("- Language: TypeScript\n");
        content.append("- Runtime: Node.js\n");
        content.append("- Build: tsc/bundler\n");
    } else if crate::text::str_eq(project_type, "javascript") {
        content.append("- Language: JavaScript\n");
        content.append("- Runtime: Node.js\n");
    } else if crate::text::str_eq(project_type, "python") {
        content.append("- Language: Python\n");
        content.append("- Testing: pytest\n");
        content.append("- Linting: ruff\n");
    } else if crate::text::str_eq(project_type, "go") {
        content.append("- Language: Go\n");
        content.append("- Build: go build\n");
        content.append("- Testing: go test\n");
    } else {
        content.append("- See project documentation\n");
    }
    content.append("\n");
    proof {
        assert(content@ =~= old(content)@ + cursor_stack(project_type@));
    }
}

/// Generates the cursor agent's rules document.
pub struct CursorGenerator;

impl AgentGenerator for CursorGenerator {
    /// Renders the document exactly as `cursor_doc` states it.
    #[verifier::rlimit(50)]
    fn generate(&self, context: &ProjectContext) -> (r: Result<String, KayfabeError>)
        ensures
            r matches Ok(s) && s@ == cursor_doc(*context),
    {
        let mut content = "# ".to_owned();
        content.append(context.name.as_str());
        content.append(" Rules\n\n");
        content.append("## Project Context\n");
        content.append("This is a ");
        content.append(context.project_type.as_str());
        content.append(" project.\n\n");
        append_cursor_stack(&mut content, context.project_type.as_str());
        let ghost head = content@;
        proof {
            assert(head =~= "# "@ + context.name@ + " Rules\n\n"@ + "## Project Context\n"@
                + "This is a "@ + context.project_type@ + " project.\n\n"@ + cursor_stack(
                context.project_type@,
            ));
        }
        content.append("## Conventions\n");
        match &context.test_cmd {
            Some(t) => {
                content.append("- Run tests with: `");
                content.append(t.as_str());
                content.append("`\n");
            },
            None => {},
        }
        match &context.lint_cmd {
            Some(l) => {
                content.append("- Run linter with: `");
                content.append(l.as_str());
                content.append("`\n");
            },
            None => {},
        }
        content.append("- Follow existing code patterns\n");
        content.append("- Write clear, self-documenting code\n");
        content.append("\n");
        proof {
            assert(content@ =~= head + cursor_conventions(*context));
        }
        content.append("## Testing\n");
        content.append("- Write tests for new features\n");
        content.append("- Maintain or improve test coverage\n");
        content.append("- Ensure all tests pass before committing\n");
        proof {
            assert(content@ =~= cursor_doc(*context));
        }
        Ok(content)
    }

    fn file_path(&self) -> (r: &'static str)
        ensures
            r@ == ".cursorrules"@,
    {
        ".cursorrules"
    }
}

/// The best-practices section of the windsurf rules, per project type.
pub open spec fn windsurf_practices(pt: Seq<char>) -> Seq<char> {
    "## Best Practices\n"@ + (if pt == "rust"@ {
        "- Use Result types for error handling\n"@ + "- Leverage the type system for safety\n"@
            + "- Prefer composition over inheritance\n"@
    } else if pt == "typescript"@ || pt == "javascript"@ {
        "- Use async/await for asynchronous code\n"@ + "- Prefer immutable data structures\n"@
            + "- Use TypeScript for type safety\n"@
    } else if pt == "python"@ {
        "- Use type hints for better IDE support\n"@ + "- Follow PEP 8 style guidelines\n"@
            + "- Use virtual environments\n"@
    } else if pt == "go"@ {
        "- Handle errors explicitly\n"@ + "- Use interfaces for abstraction\n"@
            + "- Keep packages focused\n"@
    } else {
        "- Follow project-specific guidelines\n"@
    })
}

/// The development-commands section of the windsurf rules.
pub open spec fn windsurf_commands(c: ProjectContext) -> Seq<char> {
    "## Development Commands\n"@ + (match c.build_cmd {
        Some(b) => "- Build: `"@ + b@ + "`\n"@,
        None => Seq::<char>::empty(),
    }) + (match c.test_cmd {
        Some(t) => "- Test: `"@ + t@ + "`\n"@,
        None => Seq::<char>::empty(),
    }) + (match c.lint_cmd {
        Some(l) => "- Lint: `"@ + l@ + "`\n"@,
        None => Seq::<char>::empty(),
    }) + "\n"@
}

/// The overview heading of the windsurf rules, with the workspace note
/// when the project is one.
pub open spec fn windsurf_header(c: ProjectContext) -> Seq<char> {
    "# "@ + c.name@ + " - Windsurf Rules\n\n"@ + "## Project Overview\n"@ + "Project Type: "@
        + c.project_type@ + "\n\n"@ + (if c.is_workspace {
        "This is a workspace/monorepo.\n\n"@
    } else {
        Seq::<char>::empty()
    })
}

/// The fixed guidelines section of the windsurf rules.
pub open spec fn windsurf_guidelines() -> Seq<char> {
    "## Code Guidelines\n"@ + "- Maintain consistency with existing code style\n"@
        + "- Write comprehensive tests for new features\n"@
        + "- Document public APIs and complex logic\n"@ + "- Keep functions focused and modular\n"@
        + "\n"@
}

/// The whole windsurf rules document for a project.
pub open spec fn windsurf_doc(c: ProjectContext) -> Seq<char> {
    windsurf_header(c) + windsurf_commands(c) + windsurf_guidelines() + windsurf_practices(
        c.project_type@,
    )
}

/// Appends the windsurf commands section to the text.
#[verifier::rlimit(30)]
fn append_windsurf_commands(content: &mut String, c: &ProjectContext)
    ensures
        final (content)@ == old(content)@ + windsurf_commands(*c),
{
    content.append("## Development Commands\n");
    match &c.build_cmd {
        Some(b) => {
            content.append("- Build: `");
            content.append(b.as_str());
            content.append("`\n");
        },
        None => {},
    }
    match &c.test_cmd {
        Some(t) => {
            content.append("- Test: `");
            content.append(t.as_str());
            content.append("`\n");
        },
        None => {},
    }
    match &c.lint_cmd {
        Some(l) => {
            content.append("- Lint: `");
            content.append(l.as_str());
            content.append("`\n");
        },
        None => {},
    }
    content.append("\n");
    proof {
        assert(content@ =~= old(content)@ + windsurf_commands(*c));
    }
}

/// Appends the windsurf best-practices section to the text.
#[verifier::rlimit(30)]
fn append_windsurf_practices(content: &mut String, project_type: &str)
    ensures
        final (content)@ == old(content)@ + windsurf_practices(project_type@),
{
    content.append("## Best Practices\n");
    if crate::text::str_eq(project_type, "rust") {
        content.append("- Use Result types for error handling\n");
        content.append("- Leverage the type system for safety\n");
        content.append("- Prefer composition over inheritance\n");
    } else if crate::text::str_eq(project_type, "typescript") || crate::text::str_eq(
        project_type,
        "javascript",
    ) {
        content.append("- Use async/await for asynchronous code\n");
        content.append("- Prefer immutable data structures\n");
        content.append("- Use TypeScript for type safety\n");
    } else if crate::text::str_eq(project_type, "python") {
        content.append("- Use type hints for better IDE support\n");
        content.append("- Follow PEP 8 style guidelines\n");
        content.append("- Use virtual environments\n");
    } else if crate::text::str_eq(project_type, "go") {
        content.append("- Handle errors explicitly\n");
        content.append("- Use interfaces for abstraction\n");
        content.append("- Keep packages focused\n");
    } else {
        content.append("- Follow project-specific guidelines\n");
    }
    proof {
        assert(content@ =~= old(content)@ + windsurf_practices(project_type@));
    }
}

/// Generates the windsurf agent's rules document.
pub struct WindsurfGenerator;

impl AgentGenerator for WindsurfGenerator {
    /// Renders the document exactly as `windsurf_doc` states it.
    #[verifier::rlimit(50)]
    fn generate(&self, context: &ProjectContext) -> (r: Result<String, KayfabeError>)
        ensures
            r matches Ok(s) && s@ == windsurf_doc(*context),
    {
        let mut content = "# ".to_owned();
        content.append(context.name.as_str());
        content.append(" - Windsurf Rules\n\n");
        content.append("## Project Overview\n");
        content.append("Project Type: ");
        content.append(context.project_type.as_str());
        content.append("\n\n");
        if context.is_workspace {
            content.append("This is a workspace/monorepo.\n\n");
        }
        proof {
            assert(content@ =~= windsurf_header(*context));
        }
        append_windsurf_commands(&mut content, context);
        content.append("## Code Guidelines\n");
        content.append("- Maintain consistency with existing code style\n");
        content.append("- Write comprehensive tests for new features\n");
        content.append("- Document public APIs and complex logic\n");
        content.append("- Keep functions focused and modular\n");
        content.append("\n");
        proof {
            assert(content@ =~= windsurf_header(*context) + windsurf_commands(*context)
                + windsurf_guidelines());
        }
        append_windsurf_practices(&mut content, context.project_type.as_str());
        proof {
            assert(content@ == windsurf_doc(*context));
        }
        Ok(content)
    }

    fn file_path(&self) -> (r: &'static str)
        ensures
            r@ == ".windsurf/rules/guidelines.md"@,
    {
        ".windsurf/rules/guidelines.md"
    }
}

} // verus!
