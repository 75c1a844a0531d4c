//! The commands of the command line, and the terminal view's state.
use vstd::prelude::*;

verus! {

/// A command of the command line.
#[derive(Clone, Debug, PartialEq, Eq)]
pub enum Commands {
    /// Prepare a repository.
    Init { repo: String },
    /// Start a planning session for a feature.
    Plan { slug: String, repo: String, model: Option<String> },
    /// Execute a feature's plan phase by phase.
    Run { slug: String, repo: String, model: Option<String> },
}

/// The parsed command line.
#[derive(Clone, Debug, PartialEq, Eq)]
pub struct Cli {
    pub command: Commands,
}

impl Cli {
    /// The repository and, for commands on a feature, the feature's slug:
    /// what names the log file.
    pub fn log_context(&self) -> (r: (String, Option<String>))
        ensures
            match self.command {
                Commands::Init { repo } => r.0 == repo && r.1 is None,
                Commands::Plan { slug, repo, .. } => r.0 == repo && r.1 == Some(slug),
                Commands::Run { slug, repo, .. } => r.0 == repo && r.1 == Some(slug),
            },
    {
        match &self.command {
            Commands::Init { repo } => (repo.clone(), None),
            Commands::Plan { slug, repo, .. } => (repo.clone(), Some(slug.clone())),
            Commands::Run { slug, repo, .. } => (repo.clone(), Some(slug.clone())),
        }
    }
}

/// The terminal view's state.
#[derive(Clone, Copy, Debug, PartialEq, Eq, Structural)]
pub struct App {
    pub running: bool,
}

impl App {
    pub fn new() -> (r: Self)
        ensures
            r.running,
    {
        App { running: true }
    }

    /// A key press: `q` stops the view; others change nothing.
    pub fn handle_key(&mut self, key: char)
        ensures
            final(self).running == (old(self).running && key != 'q'),
    {
        if key == 'q' {
            self.running = false;
        }
    }
}

} // verus!
