//! The progress events of a run, in the order the pipeline emits them.
use vstd::prelude::*;

verus! {

/// One progress event of a run.
#[derive(Clone, Debug, PartialEq, Eq)]
pub enum RunEvent {
    Started { feature: String, total_phases: usize },
    PhaseStarted { index: usize, name: String },
    CheckResult { name: String, passed: bool },
    /// `commit` is absent where the phase changed nothing.
    PhaseCommitted { index: usize, commit: Option<String> },
    ReviewStarted,
    ReviewCompleted { issue_count: u32 },
    VerificationStarted,
    /// `details` reads `all criteria passed` or `some criteria failed`.
    VerificationCompleted { passed: bool, details: String },
    ChangeRequestCreated { url: String },
    Finished,
    /// A failure; terminal unless later events follow.
    Error { detail: String },
}

/// One event of an interactive planning session.
#[derive(Clone, Debug, PartialEq, Eq)]
pub enum PlanEvent {
    /// Text of the planning collaborator's turn.
    Message(String),
    /// The collaborator waits for the user's answer.
    WaitingForInput,
    /// The collaborator wrote a file of the feature.
    SpecGenerated { path: String, content: String },
    Completed,
    Error { detail: String },
}

/// An event with its text left out.
#[derive(Clone, Copy, Debug, PartialEq, Eq, Structural)]
pub enum EventKind {
    Started { total_phases: usize },
    PhaseStarted { index: usize },
    CheckResult { passed: bool },
    PhaseCommitted { index: usize },
    ReviewStarted,
    ReviewCompleted { issue_count: u32 },
    VerificationStarted,
    VerificationCompleted { passed: bool },
    ChangeRequestCreated,
    Finished,
    Error,
}

/// The kind of an event.
pub open spec fn kind_of(e: RunEvent) -> EventKind {
    match e {
        RunEvent::Started { total_phases, .. } => EventKind::Started { total_phases },
        RunEvent::PhaseStarted { index, .. } => EventKind::PhaseStarted { index },
        RunEvent::CheckResult { passed, .. } => EventKind::CheckResult { passed },
        RunEvent::PhaseCommitted { index, .. } => EventKind::PhaseCommitted { index },
        RunEvent::ReviewStarted => EventKind::ReviewStarted,
        RunEvent::ReviewCompleted { issue_count } => EventKind::ReviewCompleted { issue_count },
        RunEvent::VerificationStarted => EventKind::VerificationStarted,
        RunEvent::VerificationCompleted { passed, .. } => EventKind::VerificationCompleted { passed },
        RunEvent::ChangeRequestCreated { .. } => EventKind::ChangeRequestCreated,
        RunEvent::Finished => EventKind::Finished,
        RunEvent::Error { .. } => EventKind::Error,
    }
}

/// The kinds of a sequence of events.
pub open spec fn kinds(v: Seq<RunEvent>) -> Seq<EventKind> {
    v.map_values(|e: RunEvent| kind_of(e))
}

impl RunEvent {
    /// The kind of this event.
    pub fn kind(&self) -> (r: EventKind)
        ensures
            r == kind_of(*self),
    {
        match self {
            RunEvent::Started { total_phases, .. } => EventKind::Started {
                total_phases: *total_phases,
            },
            RunEvent::PhaseStarted { index, .. } => EventKind::PhaseStarted { index: *index },
            RunEvent::CheckResult { passed, .. } => EventKind::CheckResult { passed: *passed },
            RunEvent::PhaseCommitted { index, .. } => EventKind::PhaseCommitted { index: *index },
            RunEvent::ReviewStarted => EventKind::ReviewStarted,
            RunEvent::ReviewCompleted { issue_count } => EventKind::ReviewCompleted {
                issue_count: *issue_count,
            },
            RunEvent::VerificationStarted => EventKind::VerificationStarted,
            RunEvent::VerificationCompleted { passed, .. } => EventKind::VerificationCompleted {
                passed: *passed,
            },
            RunEvent::ChangeRequestCreated { .. } => EventKind::ChangeRequestCreated,
            RunEvent::Finished => EventKind::Finished,
            RunEvent::Error { .. } => EventKind::Error,
        }
    }
}

} // verus!
