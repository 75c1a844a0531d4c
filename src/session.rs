//! A collaborator session bound to a repository.
use vstd::prelude::*;

verus! {

/// A collaborator session bound to a repository.
#[derive(Clone, Debug, PartialEq, Eq)]
pub struct Session {
    pub repo_path: String,
    pub system_prompt: Option<String>,
    pub model: String,
    pub max_tokens: u32,
}

pub const DEFAULT_SESSION_MAX_TOKENS: u32 = 8192;

impl Session {
    /// A session on `model` with no system prompt and 8192 tokens.
    pub fn new(repo_path: String, model: String) -> (r: Self)
        ensures
            r.repo_path == repo_path,
            r.system_prompt is None,
            r.model == model,
            r.max_tokens == 8192,
    {
        Session { repo_path, system_prompt: None, model, max_tokens: DEFAULT_SESSION_MAX_TOKENS }
    }
}

} // verus!
