use vstd::prelude::*;
use crate::error::KayfabeError;
use crate::text::{join_spec, path_join};

verus! {

/// Relies on dirs::config_dir: the platform's configuration directory,
/// which depends on the environment, so nothing is promised of the value.
/// Rendered as a string.
#[verifier::external_body]
pub(crate) fn config_dir_path() -> Option<String> {
    dirs::config_dir().map(|p| p.to_string_lossy().into_owned())
}

/// Defaults applied across commands: which editor to open, which branch
/// new worktrees are based on, and whether creation fetches first.
pub struct DefaultsConfig {
    pub ide: String,
    pub base_branch: String,
    pub auto_fetch: bool,
}

impl Default for DefaultsConfig {
    /// The conventional defaults: the windsurf editor, the conventional
    /// primary branch, and fetching enabled.
    fn default() -> (r: DefaultsConfig)
        ensures
            r.ide@ == "windsurf"@,
            r.base_branch@ == "main"@,
            r.auto_fetch == true,
    {
        DefaultsConfig {
            ide: "windsurf".to_owned(),
            base_branch: "main".to_owned(),
            auto_fetch: true,
        }
    }
}

/// Worktree policy: layout and naming schemes, the staleness threshold in
/// days, and whether cleanup runs automatically or protects unmerged
/// work.
pub struct WorktreeConfig {
    pub layout: String,
    pub naming: String,
    pub stale_days: u64,
    pub auto_cleanup: bool,
    pub protect_unmerged: bool,
}

impl Default for WorktreeConfig {
    /// The conventional policy: standard layout, branch-named worktrees,
    /// a two-week staleness threshold, no automatic cleanup, and unmerged
    /// work protected.
    fn default() -> (r: WorktreeConfig)
        ensures
            r.layout@ == "standard"@,
            r.naming@ == "branch"@,
            r.stale_days == 14,
            r.auto_cleanup == false,
            r.protect_unmerged == true,
    {
        WorktreeConfig {
            layout: "standard".to_owned(),
            naming: "branch".to_owned(),
            stale_days: 14,
            auto_cleanup: false,
            protect_unmerged: true,
        }
    }
}

/// One agent's configuration entry: whether it is enabled, which template
/// renders it, and where its file lives.
pub struct AgentConfig {
    pub enabled: bool,
    pub template: String,
    pub location: String,
}

/// Presentation preferences for the command-line surface.
pub struct UIConfig {
    pub color: bool,
    pub progress: bool,
    pub interactive: bool,
}

impl Default for UIConfig {
    /// Everything on.
    fn default() -> (r: UIConfig)
        ensures
            r.color == true,
            r.progress == true,
            r.interactive == true,
    {
        UIConfig { color: true, progress: true, interactive: true }
    }
}

/// The user-global settings: defaults, worktree policy, the per-agent
/// entries keyed by agent name, and presentation preferences.
pub struct Config {
    pub defaults: DefaultsConfig,
    pub worktree: WorktreeConfig,
    pub agents: Vec<(String, AgentConfig)>,
    pub ui: UIConfig,
}

impl Default for Config {
    /// The conventional global settings, with one agent entry: the
    /// windsurf agent, enabled, on the default template, written to its
    /// conventional location.
    fn default() -> (r: Config)
        ensures
            r.defaults.ide@ == "windsurf"@,
            r.defaults.base_branch@ == "main"@,
            r.defaults.auto_fetch == true,
            r.worktree.layout@ == "standard"@,
            r.worktree.naming@ == "branch"@,
            r.worktree.stale_days == 14,
            r.worktree.auto_cleanup == false,
            r.worktree.protect_unmerged == true,
            r.agents@.len() == 1,
            r.agents@[0].0@ == "windsurf"@,
            r.agents@[0].1.enabled == true,
            r.agents@[0].1.template@ == "default"@,
            r.agents@[0].1.location@ == ".windsurfrules"@,
            r.ui.color == true,
            r.ui.progress == true,
            r.ui.interactive == true,
    {
        let mut agents: Vec<(String, AgentConfig)> = Vec::new();
        agents.push(
            (
                "windsurf".to_owned(),
                AgentConfig {
                    enabled: true,
                    template: "default".to_owned(),
                    location: ".windsurfrules".to_owned(),
                },
            ),
        );
        Config {
            defaults: DefaultsConfig::default(),
            worktree: WorktreeConfig::default(),
            agents,
            ui: UIConfig::default(),
        }
    }
}

/// The user-global settings file.
pub struct GlobalConfig;

impl GlobalConfig {
    /// Where the global settings file lives: under the platform's
    /// configuration directory, which may be unavailable.
    pub fn path() -> (r: Result<String, KayfabeError>)
        ensures
            r matches Err(e) ==> (e matches KayfabeError::Other(m) && m@
                == "Could not find config directory"@),
    {
        match config_dir_path() {
            Some(dir) => {
                let base = path_join(dir.as_str(), "kayfabe");
                Ok(path_join(base.as_str(), "config.toml"))
            },
            None => Err(KayfabeError::Other("Could not find config directory".to_owned())),
        }
    }
}

/// Per-repository project facts, as persisted.
pub struct ProjectInfo {
    pub name: Option<String>,
    pub project_type: Option<String>,
}

impl Default for ProjectInfo {
    fn default() -> (r: ProjectInfo)
        ensures
            r.name is None,
            r.project_type is None,
    {
        ProjectInfo { name: None, project_type: None }
    }
}

/// Per-repository worktree settings, as persisted.
pub struct ProjectWorktreeConfig {
    pub base_branch: Option<String>,
}

impl Default for ProjectWorktreeConfig {
    fn default() -> (r: ProjectWorktreeConfig)
        ensures
            r.base_branch is None,
    {
        ProjectWorktreeConfig { base_branch: None }
    }
}

/// Per-repository agent preferences, as persisted.
pub struct ProjectAgentsConfig {
    pub preferred: Option<Vec<String>>,
}

impl Default for ProjectAgentsConfig {
    fn default() -> (r: ProjectAgentsConfig)
        ensures
            r.preferred is None,
    {
        ProjectAgentsConfig { preferred: None }
    }
}

/// The hook commands run around worktree lifecycle events: each a shell
/// command executed in the new worktree's directory.
pub struct ProjectHooks {
    pub post_create: Vec<String>,
    pub pre_open: Vec<String>,
}

impl Default for ProjectHooks {
    fn default() -> (r: ProjectHooks)
        ensures
            r.post_create@.len() == 0,
            r.pre_open@.len() == 0,
    {
        ProjectHooks { post_create: Vec::new(), pre_open: Vec::new() }
    }
}

/// The per-repository settings file's contents.
pub struct ProjectConfig {
    pub project: ProjectInfo,
    pub worktree: ProjectWorktreeConfig,
    pub agents: ProjectAgentsConfig,
    pub hooks: ProjectHooks,
}

impl Default for ProjectConfig {
    fn default() -> (r: ProjectConfig)
        ensures
            r.project.name is None,
            r.project.project_type is None,
            r.worktree.base_branch is None,
            r.agents.preferred is None,
            r.hooks.post_create@.len() == 0,
            r.hooks.pre_open@.len() == 0,
    {
        ProjectConfig {
            project: ProjectInfo::default(),
            worktree: ProjectWorktreeConfig::default(),
            agents: ProjectAgentsConfig::default(),
            hooks: ProjectHooks::default(),
        }
    }
}

impl ProjectConfig {
    /// Where a repository's settings file lives: inside the marker
    /// directory under the managed root.
    pub fn path(repo_root: &String) -> (r: String)
        ensures
            r@ == join_spec(join_spec(repo_root@, ".kayfabe"@), "config.toml"@),
    {
        let base = path_join(repo_root.as_str(), ".kayfabe");
        path_join(base.as_str(), "config.toml")
    }
}

} // verus!
