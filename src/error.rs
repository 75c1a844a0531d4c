//! Error types.
use vstd::prelude::*;

verus! {

/// Errors of the engine.
#[derive(Clone, Debug, PartialEq, Eq)]
pub enum CoreError {
    /// The repository has no `.gba` directory.
    NotInitialized,
    AlreadyInitialized,
    FeatureNotFound(String),
    /// The plan file exists but does not parse.
    InvalidSpec(String),
    /// The collaborator failed.
    Agent(String),
    Git(String),
    Config(String),
    /// The check cycle ran out of fix rounds.
    Hook(String),
    Prompt(PmError),
    Yaml(String),
    Io(String),
    Other(String),
}

/// Errors of the template registry.
#[derive(Clone, Debug, PartialEq, Eq)]
pub enum PmError {
    TemplateNotFound(String),
    RenderError(String),
    InvalidTemplate(String),
    Io(String),
    ConfigParse(String),
}

} // verus!
