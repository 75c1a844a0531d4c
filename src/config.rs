//! Configuration: what the caller chose for one engine, and what a project
//! sets for itself.
use vstd::prelude::*;

verus! {

/// `comp` joined to the path `base` with one separator.
pub open spec fn joined(base: Seq<char>, comp: Seq<char>) -> Seq<char> {
    if base.len() == 0 || base.last() == '/' {
        base + comp
    } else {
        base + seq!['/'] + comp
    }
}

/// Joins a relative component to a path.
pub fn join_path(base: &str, comp: &str) -> (r: String)
    ensures
        r@ == joined(base@, comp@),
{
    let mut r = String::from_str(base);
    let n = base.unicode_len();
    if n == 0 || base.get_char(n - 1) == '/' {
        r.append(comp);
    } else {
        proof {
            reveal_strlit("/");
        }
        r.append("/");
        assert(r@ =~= base@ + seq!['/']);
        r.append(comp);
    }
    r
}

/// What the caller chose for one engine; the model and the token bound, where
/// given, take precedence over the project's.
#[derive(Clone, Debug, PartialEq, Eq)]
pub struct EngineConfig {
    pub repo_path: String,
    pub model: Option<String>,
    pub max_tokens: Option<u32>,
}

impl EngineConfig {
    /// A configuration for the repository at `repo_path`, with no overrides.
    pub fn new(repo_path: String) -> (r: Self)
        ensures
            r.repo_path@ == repo_path@,
            r.model is None,
            r.max_tokens is None,
    {
        EngineConfig { repo_path, model: None, max_tokens: None }
    }

    /// The same configuration with `model` chosen.
    pub fn with_model(self, model: String) -> (r: Self)
        ensures
            r.repo_path == self.repo_path,
            r.model == Some(model),
            r.max_tokens == self.max_tokens,
    {
        EngineConfig { repo_path: self.repo_path, model: Some(model), max_tokens: self.max_tokens }
    }

    /// The same configuration with a bound on tokens.
    pub fn with_max_tokens(self, max_tokens: u32) -> (r: Self)
        ensures
            r.repo_path == self.repo_path,
            r.model == self.model,
            r.max_tokens == Some(max_tokens),
    {
        EngineConfig { repo_path: self.repo_path, model: self.model, max_tokens: Some(max_tokens) }
    }

    pub fn repo_path(&self) -> (r: &String)
        ensures
            r == &self.repo_path,
    {
        &self.repo_path
    }

    pub fn model(&self) -> (r: Option<&str>)
        ensures
            match r {
                Some(m) => self.model is Some && m@ == self.model->0@,
                None => self.model is None,
            },
    {
        match &self.model {
            Some(m) => Some(m.as_str()),
            None => None,
        }
    }

    pub fn max_tokens(&self) -> (r: Option<u32>)
        ensures
            r == self.max_tokens,
    {
        self.max_tokens
    }

    /// `<repo>/.gba`, where the project keeps its state.
    pub fn gba_dir(&self) -> (r: String)
        ensures
            r@ == joined(self.repo_path@, ".gba"@),
    {
        join_path(self.repo_path.as_str(), ".gba")
    }

    /// `<repo>/.trees`, where the worktrees stand.
    pub fn trees_dir(&self) -> (r: String)
        ensures
            r@ == joined(self.repo_path@, ".trees"@),
    {
        join_path(self.repo_path.as_str(), ".trees")
    }

    /// `<repo>/.gba/config.yaml`.
    pub fn config_path(&self) -> (r: String)
        ensures
            r@ == joined(joined(self.repo_path@, ".gba"@), "config.yaml"@),
    {
        let d = self.gba_dir();
        join_path(d.as_str(), "config.yaml")
    }
}

/// Builds the engine configuration from the command line: the repository and
/// an optional model.
pub fn build_engine_config(repo: String, model: Option<String>) -> (r: EngineConfig)
    ensures
        r.repo_path@ == repo@,
        r.model == model,
        r.max_tokens is None,
{
    match model {
        Some(m) => EngineConfig::new(repo).with_model(m),
        None => EngineConfig::new(repo),
    }
}

/// How the collaborator may act on the working tree.
#[derive(Clone, Copy, Debug, PartialEq, Eq, Structural)]
pub enum PermissionMode {
    Auto,
    Manual,
    Disabled,
}

impl Default for PermissionMode {
    fn default() -> (r: Self)
        ensures
            r == PermissionMode::Auto,
    {
        PermissionMode::Auto
    }
}

/// The project's choices for the collaborator.
#[derive(Clone, Debug, PartialEq, Eq)]
pub struct AgentProjectConfig {
    pub model: Option<String>,
    pub max_tokens: Option<u32>,
    pub permission_mode: PermissionMode,
}

impl Default for AgentProjectConfig {
    fn default() -> (r: Self)
        ensures
            r.model is None,
            r.max_tokens is None,
            r.permission_mode == PermissionMode::Auto,
    {
        AgentProjectConfig { model: None, max_tokens: None, permission_mode: PermissionMode::Auto }
    }
}

/// Extra template directories.
#[derive(Clone, Debug, PartialEq, Eq)]
pub struct PromptsConfig {
    pub extra_dirs: Vec<String>,
}

impl Default for PromptsConfig {
    fn default() -> (r: Self)
        ensures
            r.extra_dirs@.len() == 0,
    {
        PromptsConfig { extra_dirs: Vec::new() }
    }
}

pub const DEFAULT_MAX_ITERATIONS: u32 = 3;

pub const DEFAULT_MAX_RETRIES: u32 = 5;

/// How feature branches are named and committed.
#[derive(Clone, Debug, PartialEq, Eq)]
pub struct GitConfig {
    pub auto_commit: bool,
    /// `{slug}` and `{id}` stand for the slug and its numeric prefix.
    pub branch_pattern: String,
    pub base_branch: String,
}

impl GitConfig {
    /// A copy with equal fields.
    pub fn duplicate(&self) -> (r: GitConfig)
        ensures
            r.auto_commit == self.auto_commit,
            r.branch_pattern@ == self.branch_pattern@,
            r.base_branch@ == self.base_branch@,
    {
        GitConfig {
            auto_commit: self.auto_commit,
            branch_pattern: self.branch_pattern.clone(),
            base_branch: self.base_branch.clone(),
        }
    }
}

impl Default for GitConfig {
    fn default() -> (r: Self)
        ensures
            r.auto_commit,
            r.branch_pattern@ == "feat/{id}-{slug}"@,
            r.base_branch@ == "main"@,
    {
        proof {
            reveal_strlit("feat/{id}-{slug}");
            reveal_strlit("main");
        }
        GitConfig {
            auto_commit: true,
            branch_pattern: String::from_str("feat/{id}-{slug}"),
            base_branch: String::from_str("main"),
        }
    }
}

/// Whether the review step runs, and how many rounds it may take.
#[derive(Clone, Copy, Debug, PartialEq, Eq, Structural)]
pub struct ReviewConfig {
    pub enabled: bool,
    pub max_iterations: u32,
}

impl Default for ReviewConfig {
    fn default() -> (r: Self)
        ensures
            r.enabled,
            r.max_iterations == 3,
    {
        ReviewConfig { enabled: true, max_iterations: DEFAULT_MAX_ITERATIONS }
    }
}

/// Whether the verification step runs, and how many rounds it may take.
#[derive(Clone, Copy, Debug, PartialEq, Eq, Structural)]
pub struct VerificationConfig {
    pub enabled: bool,
    pub max_iterations: u32,
}

impl Default for VerificationConfig {
    fn default() -> (r: Self)
        ensures
            r.enabled,
            r.max_iterations == 3,
    {
        VerificationConfig { enabled: true, max_iterations: DEFAULT_MAX_ITERATIONS }
    }
}

/// A named shell command that gates a commit.
#[derive(Clone, Debug, PartialEq, Eq)]
pub struct Hook {
    pub name: String,
    pub command: String,
}

impl Hook {
    /// A copy with equal fields.
    pub fn duplicate(&self) -> (r: Hook)
        ensures
            r.name@ == self.name@,
            r.command@ == self.command@,
    {
        Hook { name: self.name.clone(), command: self.command.clone() }
    }
}

/// The checks that gate each phase's commit, and how many fix rounds they allow.
#[derive(Clone, Debug, PartialEq, Eq)]
pub struct HooksConfig {
    pub pre_commit: Vec<Hook>,
    pub max_retries: u32,
}

impl Default for HooksConfig {
    fn default() -> (r: Self)
        ensures
            r.pre_commit@.len() == 0,
            r.max_retries == 5,
    {
        HooksConfig { pre_commit: Vec::new(), max_retries: DEFAULT_MAX_RETRIES }
    }
}

/// What a project sets for itself.
#[derive(Clone, Debug, PartialEq, Eq)]
pub struct ProjectConfig {
    pub agent: AgentProjectConfig,
    pub prompts: PromptsConfig,
    pub git: GitConfig,
    pub review: ReviewConfig,
    pub verification: VerificationConfig,
    pub hooks: HooksConfig,
}

impl Default for ProjectConfig {
    fn default() -> (r: Self)
        ensures
            r.agent.model is None,
            r.agent.max_tokens is None,
            r.agent.permission_mode == PermissionMode::Auto,
            r.prompts.extra_dirs@.len() == 0,
            r.git.auto_commit,
            r.git.branch_pattern@ == "feat/{id}-{slug}"@,
            r.git.base_branch@ == "main"@,
            r.review == (ReviewConfig { enabled: true, max_iterations: 3 }),
            r.verification == (VerificationConfig { enabled: true, max_iterations: 3 }),
            r.hooks.pre_commit@.len() == 0,
            r.hooks.max_retries == 5,
    {
        ProjectConfig {
            agent: AgentProjectConfig::default(),
            prompts: PromptsConfig::default(),
            git: GitConfig::default(),
            review: ReviewConfig::default(),
            verification: VerificationConfig::default(),
            hooks: HooksConfig::default(),
        }
    }
}

} // verus!
