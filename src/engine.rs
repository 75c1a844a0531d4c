//! The engine of one repository: the caller's configuration, the project's,
//! and what follows from them.
use vstd::prelude::*;

use crate::agent::AgentRunner;
use crate::config::{joined, EngineConfig, ProjectConfig};
use crate::git::GitOps;
use crate::plan::opt_view;

verus! {

/// The engine of one repository.
#[derive(Clone, Debug, PartialEq, Eq)]
pub struct Engine {
    pub config: EngineConfig,
    pub project_config: ProjectConfig,
    pub agent_runner: AgentRunner,
    pub git: GitOps,
}

impl Engine {
    /// An engine from the caller's configuration and the project's, as read
    /// from `<repo>/.gba/config.yaml` (defaults where there is none).
    pub fn new(config: EngineConfig, project_config: ProjectConfig) -> (r: Self)
        ensures
            r.config == config,
            r.project_config == project_config,
            r.git.repo_path@ == config.repo_path@,
            r.git.git_config.auto_commit == project_config.git.auto_commit,
            r.git.git_config.branch_pattern@ == project_config.git.branch_pattern@,
            r.git.git_config.base_branch@ == project_config.git.base_branch@,
            opt_view(r.agent_runner.model) == if config.model is Some {
                opt_view(config.model)
            } else {
                opt_view(project_config.agent.model)
            },
            r.agent_runner.max_tokens == if config.max_tokens is Some {
                config.max_tokens
            } else {
                project_config.agent.max_tokens
            },
            r.agent_runner.permission_mode == project_config.agent.permission_mode,
    {
        let agent_runner = AgentRunner::new(&config, &project_config);
        let git = GitOps::new(config.repo_path.clone(), project_config.git.duplicate());
        Engine { config, project_config, agent_runner, git }
    }

    pub fn config(&self) -> (r: &EngineConfig)
        ensures
            r == &self.config,
    {
        &self.config
    }

    pub fn project_config(&self) -> (r: &ProjectConfig)
        ensures
            r == &self.project_config,
    {
        &self.project_config
    }

    pub fn git(&self) -> (r: &GitOps)
        ensures
            r == &self.git,
    {
        &self.git
    }

    pub fn agent_runner(&self) -> (r: &AgentRunner)
        ensures
            r == &self.agent_runner,
    {
        &self.agent_runner
    }

    /// `<repo>/.gba`.
    pub fn gba_dir(&self) -> (r: String)
        ensures
            r@ == joined(self.config.repo_path@, ".gba"@),
    {
        self.config.gba_dir()
    }
}

} // verus!
