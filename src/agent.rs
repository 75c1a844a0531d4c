//! The collaborator's settings, merged from the caller's choices and the
//! project's, and what the pipeline reads from a collaborator's transcript.
use vstd::prelude::*;

use crate::config::{joined, join_path, EngineConfig, PermissionMode, ProjectConfig};
use crate::plan::opt_view;

verus! {

/// How the collaborator runs: the settings that hold for every invocation.
#[derive(Clone, Debug, PartialEq, Eq)]
pub struct AgentRunner {
    /// The caller's model, else the project's; none leaves the collaborator's default.
    pub model: Option<String>,
    /// The caller's bound, else the project's.
    pub max_tokens: Option<u32>,
    pub permission_mode: PermissionMode,
    /// Directories of templates that override the built-in ones, in order.
    pub prompt_dirs: Vec<String>,
}

/// A template directory: absolute as it stands, otherwise under the repository.
pub open spec fn resolved_dir(repo: Seq<char>, dir: Seq<char>) -> Seq<char> {
    if dir.len() > 0 && dir[0] == '/' {
        dir
    } else {
        joined(repo, dir)
    }
}

impl AgentRunner {
    /// Merges the settings: the caller's model and bound take precedence
    /// over the project's.
    pub fn new(config: &EngineConfig, project_config: &ProjectConfig) -> (r: Self)
        ensures
            opt_view(r.model) == if config.model is Some {
                opt_view(config.model)
            } else {
                opt_view(project_config.agent.model)
            },
            r.max_tokens == if config.max_tokens is Some {
                config.max_tokens
            } else {
                project_config.agent.max_tokens
            },
            r.permission_mode == project_config.agent.permission_mode,
            r.prompt_dirs@.len() == project_config.prompts.extra_dirs@.len(),
            forall|i: int|
                0 <= i < r.prompt_dirs@.len() ==> (#[trigger] r.prompt_dirs@[i])@ == resolved_dir(
                    config.repo_path@,
                    project_config.prompts.extra_dirs@[i]@,
                ),
    {
        let model = match &config.model {
            Some(m) => Some(m.clone()),
            None => match &project_config.agent.model {
                Some(m) => Some(m.clone()),
                None => None,
            },
        };
        let max_tokens = match config.max_tokens {
            Some(t) => Some(t),
            None => project_config.agent.max_tokens,
        };
        let dirs = &project_config.prompts.extra_dirs;
        let mut prompt_dirs: Vec<String> = Vec::new();
        let mut i: usize = 0;
        while i < dirs.len()
            invariant
                i <= dirs@.len(),
                prompt_dirs@.len() == i,
                forall|j: int|
                    0 <= j < i ==> (#[trigger] prompt_dirs@[j])@ == resolved_dir(
                        config.repo_path@,
                        dirs@[j]@,
                    ),
            decreases dirs@.len() - i,
        {
            let d = dirs[i].as_str();
            let absolute = d.unicode_len() > 0 && d.get_char(0) == '/';
            if absolute {
                prompt_dirs.push(String::from_str(d));
            } else {
                prompt_dirs.push(join_path(config.repo_path.as_str(), d));
            }
            i = i + 1;
        }
        AgentRunner {
            model,
            max_tokens,
            permission_mode: project_config.agent.permission_mode,
            prompt_dirs,
        }
    }

    pub fn model(&self) -> (r: Option<&str>)
        ensures
            match r {
                Some(m) => self.model is Some && m@ == self.model->0@,
                None => self.model is None,
            },
    {
        match &self.model {
            Some(m) => Some(m.as_str()),
            None => None,
        }
    }
}

/// The turns that a transcript reports: those of its result, or 1 where it
/// has none.
pub fn turn_count(result_turns: Option<u32>) -> (r: u32)
    ensures
        r == match result_turns {
            Some(t) => t,
            None => 1,
        },
{
    match result_turns {
        Some(t) => t,
        None => 1,
    }
}

/// The text blocks of a transcript joined, each followed by a line feed.
pub open spec fn joined_blocks(blocks: Seq<Seq<char>>) -> Seq<char>
    decreases blocks.len(),
{
    if blocks.len() == 0 {
        Seq::empty()
    } else {
        joined_blocks(blocks.drop_last()) + blocks.last() + seq!['\n']
    }
}

/// The text of a transcript: each text block followed by a line feed.
pub fn join_text_blocks(blocks: &Vec<String>) -> (r: String)
    ensures
        r@ == joined_blocks(blocks@.map_values(|b: String| b@)),
{
    let ghost views = blocks@.map_values(|b: String| b@);
    let mut out = String::new();
    let mut i: usize = 0;
    while i < blocks.len()
        invariant
            i <= blocks@.len(),
            views == blocks@.map_values(|b: String| b@),
            out@ == joined_blocks(views.subrange(0, i as int)),
        decreases blocks@.len() - i,
    {
        assert(views.subrange(0, i + 1).drop_last() =~= views.subrange(0, i as int));
        proof {
            reveal_strlit("\n");
        }
        out.append(blocks[i].as_str());
        out.append("\n");
        assert(out@ =~= joined_blocks(views.subrange(0, i as int)) + views[i as int] + seq!['\n']);
        i = i + 1;
    }
    assert(views.subrange(0, i as int) =~= views);
    out
}

} // verus!
