use vstd::prelude::*;
use crate::error::KayfabeError;
use crate::text::{join_spec, path_join, str_eq, trim_ws, trim_ws_spec};

verus! {

/// Which agent configuration files a generate request names: one agent,
/// or all of them.
pub fn agents_to_generate(agent: &Option<String>) -> (r: Result<
    Vec<&'static str>,
    KayfabeError,
>)
    ensures
        r matches Ok(v) ==> {
            let names = v@.map_values(|s: &str| s@);
            match agent {
                Some(a) => (a@ == "assistant"@ && names == seq!["assistant"@]) || (a@ == "cursor"@
                    && names == seq!["cursor"@]) || (a@ == "windsurf"@ && names
                    == seq!["windsurf"@]) || (a@ == "all"@ && names == seq![
                    "assistant"@,
                    "cursor"@,
                    "windsurf"@,
                ]),
                None => names == seq!["assistant"@, "cursor"@, "windsurf"@],
            }
        },
        r matches Err(e) ==> (agent matches Some(a) && a@ != "assistant"@ && a@ != "cursor"@ && a@
            != "windsurf"@ && a@ != "all"@ && (e matches KayfabeError::Other(m) && m@
            == "Unknown agent: "@ + a@ + ". Valid options: assistant, cursor, windsurf, all"@)),
{
    match agent {
        Some(a) => {
            if str_eq(a.as_str(), "assistant") {
                let mut v: Vec<&'static str> = Vec::new();
                v.push("assistant");
                proof {
                    assert(v@.map_values(|s: &str| s@) =~= seq!["assistant"@]);
                }
                Ok(v)
            } else if str_eq(a.as_str(), "cursor") {
                let mut v: Vec<&'static str> = Vec::new();
                v.push("cursor");
                proof {
                    assert(v@.map_values(|s: &str| s@) =~= seq!["cursor"@]);
                }
                Ok(v)
            } else if str_eq(a.as_str(), "windsurf") {
                let mut v: Vec<&'static str> = Vec::new();
                v.push("windsurf");
                proof {
                    assert(v@.map_values(|s: &str| s@) =~= seq!["windsurf"@]);
                }
                Ok(v)
            } else if str_eq(a.as_str(), "all") {
                Ok(all_agents())
            } else {
                Err(
                    KayfabeError::Other(
                        "Unknown agent: ".to_owned().concat(a.as_str()).concat(
                            ". Valid options: assistant, cursor, windsurf, all",
                        ),
                    ),
                )
            }
        },
        None => Ok(all_agents()),
    }
}

/// Every known agent, in generation order.
fn all_agents() -> (r: Vec<&'static str>)
    ensures
        r@.map_values(|s: &str| s@) == seq!["assistant"@, "cursor"@, "windsurf"@],
{
    let mut v: Vec<&'static str> = Vec::new();
    v.push("assistant");
    v.push("cursor");
    v.push("windsurf");
    proof {
        assert(v@.map_values(|s: &str| s@) =~= seq!["assistant"@, "cursor"@, "windsurf"@]);
    }
    v
}

/// The configuration file each agent owns, relative to the checkout root;
/// `None` for an unknown agent name.
pub fn agent_config_file(agent: &str) -> (r: Option<&'static str>)
    ensures
        agent@ == "assistant"@ ==> (r matches Some(f) && f@ == "ASSISTANT.md"@),
        agent@ == "cursor"@ ==> (r matches Some(f) && f@ == ".cursorrules"@),
        agent@ == "windsurf"@ ==> (r matches Some(f) && f@ == ".windsurf/rules/guidelines.md"@),
        agent@ != "assistant"@ && agent@ != "cursor"@ && agent@ != "windsurf"@ ==> r is None,
{
    proof {
        reveal_strlit("assistant");
        reveal_strlit("cursor");
        reveal_strlit("windsurf");
    }
    if str_eq(agent, "assistant") {
        proof {
            assert("assistant"@.len() == 9 && "cursor"@.len() == 6 && "windsurf"@.len() == 8);
            assert(agent@ != "cursor"@);
            assert(agent@ != "windsurf"@);
        }
        Some("ASSISTANT.md")
    } else if str_eq(agent, "cursor") {
        proof {
            assert("cursor"@.len() == 6 && "windsurf"@.len() == 8);
            assert(agent@ != "windsurf"@);
        }
        Some(".cursorrules")
    } else if str_eq(agent, "windsurf") {
        Some(".windsurf/rules/guidelines.md")
    } else {
        None
    }
}

/// What validation reports of one agent configuration file.
pub enum ConfigFileStatus {
    /// Present with non-blank content.
    Valid,
    /// Present but blank.
    EmptyFile,
    /// Not present.
    Missing,
}

/// Judges one agent configuration file from its existence and content: a
/// file whose content is blank after trimming needs attention.
pub fn validate_config_file(exists: bool, content: &String) -> (r: ConfigFileStatus)
    ensures
        !exists <==> r is Missing,
        (exists && trim_ws_spec(content@).len() == 0) <==> r is EmptyFile,
        (exists && trim_ws_spec(content@).len() > 0) <==> r is Valid,
{
    if !exists {
        ConfigFileStatus::Missing
    } else {
        let t = trim_ws(content.as_str());
        if t.as_str().unicode_len() == 0 {
            ConfigFileStatus::EmptyFile
        } else {
            ConfigFileStatus::Valid
        }
    }
}

/// The agents a global installation covers: the explicit list when one is
/// given non-interactively, every available agent when none is, and the
/// interactive selection otherwise.
pub fn resolve_install_agents(
    non_interactive: bool,
    requested: Option<Vec<String>>,
    picked: Vec<String>,
) -> (r: Vec<String>)
    ensures
        non_interactive ==> (match requested {
            Some(v) => r@ == v@,
            None => r@.len() == 1 && r@[0]@ == "windsurf"@,
        }),
        !non_interactive ==> r@ == picked@,
{
    if non_interactive {
        match requested {
            Some(v) => v,
            None => {
                let mut v: Vec<String> = Vec::new();
                v.push("windsurf".to_owned());
                v
            },
        }
    } else {
        picked
    }
}

/// What installing one agent globally requires: where to write, and what.
pub struct InstallPlan {
    /// Target file of the installed configuration.
    pub path: String,
    /// The configuration text to write there.
    pub content: String,
}

/// The fixed configuration text the windsurf agent installs.
pub open spec fn windsurf_global_config_spec() -> Seq<char> {
    "# Kayfabe Windsurf Rules\n\nThis project uses kayfabe for AI-assisted development with git worktree management.\n\n## Kayfabe Commands\n- `kayfabe worktree create <name> [--open windsurf]` - Create isolated development environment\n- `kayfabe worktree list [--stale]` - List all worktrees and their status  \n- `kayfabe worktree remove <name>` - Remove completed worktree\n- `kayfabe worktree cleanup` - Clean up stale worktrees\n- `kayfabe status` - Show repository and worktree status\n\n## Development Workflow\n1. **Feature Development**: Create dedicated worktrees for each feature/task\n2. **Isolation**: Each worktree is completely isolated - no branch conflicts\n3. **Parallel Work**: Multiple agents can work on different features simultaneously\n4. **Clean Merging**: Merge completed work back to main branch\n5. **Cleanup**: Remove merged worktrees to keep workspace tidy\n\n## Best Practices\n- Create descriptive worktree names (e.g., `feature-auth`, `fix-memory-leak`)\n- Use `--open windsurf` to launch Windsurf in the new worktree\n- Run `kayfabe status` to understand current repository state\n- Clean up merged worktrees regularly with `kayfabe worktree cleanup`\n- Work from any directory - kayfabe auto-detects the repository root\n\n## Code Quality\n- Write comprehensive tests for new functionality\n- Follow existing project conventions and style\n- Keep commits atomic and well-described\n- Ensure all tests pass before merging\n- Document complex logic and public APIs\n"@
}

/// Installs agent configuration files outside any one repository.
pub struct AgentInstaller;

impl AgentInstaller {
    /// Decides what a global installation of the named agent writes: the
    /// windsurf agent gets its fixed configuration beside the target
    /// directory; any other name is refused.
    pub fn install_plan(agent: &String, target_dir: &String) -> (r: Result<
        InstallPlan,
        KayfabeError,
    >)
        ensures
            agent@ == "windsurf"@ ==> (r matches Ok(p) && p.path@ == join_spec(
                target_dir@,
                ".windsurfrules"@,
            ) && p.content@ == windsurf_global_config_spec()),
            agent@ != "windsurf"@ ==> (r matches Err(e) && e matches KayfabeError::Other(m) && m@
                == "Unknown agent: "@ + agent@),
    {
        if str_eq(agent.as_str(), "windsurf") {
            Ok(
                InstallPlan {
                    path: path_join(target_dir.as_str(), ".windsurfrules"),
                    content: Self::generate_windsurf_config(),
                },
            )
        } else {
            Err(KayfabeError::Other("Unknown agent: ".to_owned().concat(agent.as_str())))
        }
    }

    /// The configuration text the windsurf agent installs.
    pub fn generate_windsurf_config() -> (r: String)
        ensures
            r@ == windsurf_global_config_spec(),
    {
        windsurf_global_text().to_owned()
    }
}

/// The windsurf agent's global configuration, verbatim.
fn windsurf_global_text() -> (r: &'static str)
    ensures
        r@ == windsurf_global_config_spec(),
{
    "# Kayfabe Windsurf Rules\n\nThis project uses kayfabe for AI-assisted development with git worktree management.\n\n## Kayfabe Commands\n- `kayfabe worktree create <name> [--open windsurf]` - Create isolated development environment\n- `kayfabe worktree list [--stale]` - List all worktrees and their status  \n- `kayfabe worktree remove <name>` - Remove completed worktree\n- `kayfabe worktree cleanup` - Clean up stale worktrees\n- `kayfabe status` - Show repository and worktree status\n\n## Development Workflow\n1. **Feature Development**: Create dedicated worktrees for each feature/task\n2. **Isolation**: Each worktree is completely isolated - no branch conflicts\n3. **Parallel Work**: Multiple agents can work on different features simultaneously\n4. **Clean Merging**: Merge completed work back to main branch\n5. **Cleanup**: Remove merged worktrees to keep workspace tidy\n\n## Best Practices\n- Create descriptive worktree names (e.g., `feature-auth`, `fix-memory-leak`)\n- Use `--open windsurf` to launch Windsurf in the new worktree\n- Run `kayfabe status` to understand current repository state\n- Clean up merged worktrees regularly with `kayfabe worktree cleanup`\n- Work from any directory - kayfabe auto-detects the repository root\n\n## Code Quality\n- Write comprehensive tests for new functionality\n- Follow existing project conventions and style\n- Keep commits atomic and well-described\n- Ensure all tests pass before merging\n- Document complex logic and public APIs\n"
}

} // verus!
