//! The execution pipeline of one feature, as a machine.
//!
//! A run walks the plan's phases in order, skipping those already completed;
//! for each it asks the caller to invoke the collaborator, run the checks and
//! commit. Then come the review step, the verification step and the request
//! for a pull request, and the run ends by recording its totals in the plan.
//! The caller performs each action, persists the plan where asked, hands the
//! events on, and reports the outcome back with [`Run::step`].
use vstd::prelude::*;

use crate::events::{kind_of, kinds, EventKind, RunEvent};
use crate::git::CommitOutcome;
use crate::plan::{
    is_completed, phase_completed, set_phase_result, verification_is_empty, Execution,
    FeatureSpec, PhaseResult, ReviewResult, StepStatus, VerificationResult,
};
use crate::cycles::{sat_add, saturating_add};

verus! {

/// Where a run stands: which outcome it waits for.
#[derive(Clone, Copy, Debug, PartialEq, Eq, Structural)]
pub enum Stage {
    /// The collaborator works on phase `i`.
    Phase(usize),
    /// The checks run after phase `i`.
    Checks(usize),
    /// Phase `i` is being committed.
    Commit(usize),
    Review,
    Verification,
    /// The pull request is being requested.
    Finalize,
    /// The run reached its end and recorded it.
    Done,
    /// A fatal failure ended the run.
    Aborted,
}

/// Which steps a run takes.
#[derive(Clone, Copy, Debug, PartialEq, Eq, Structural)]
pub struct RunConfig {
    pub auto_commit: bool,
    /// Checks gate each phase's commit.
    pub checks: bool,
    pub review: bool,
    pub verification: bool,
}

/// What the caller is asked to do next.
#[derive(Clone, Copy, Debug, PartialEq, Eq, Structural)]
pub enum Action {
    /// Invoke the collaborator on phase `index`; `resume` where an earlier
    /// phase is already completed.
    RunPhase { index: usize, resume: bool },
    /// Run the check cycle after phase `index`.
    RunChecks { index: usize },
    /// Commit the work of phase `index`.
    Commit { index: usize },
    RunReview,
    RunVerification,
    CreatePr,
    /// Nothing: the run is over.
    Stop,
}

/// What the caller reports back.
#[derive(Clone, Debug, PartialEq, Eq)]
pub enum Outcome {
    /// The collaborator finished a phase in `turns` turns.
    Coded { turns: u32 },
    CoderFailed(String),
    ChecksPassed,
    /// The check cycle ran out of fix rounds.
    ChecksFailed(String),
    Committed(CommitOutcome),
    Reviewed(ReviewResult),
    ReviewFailed(String),
    Verified(VerificationResult),
    VerificationFailed(String),
    PrCreated(String),
    PrFailed(String),
}

/// An outcome with its text left out.
#[derive(Clone, Copy, Debug, PartialEq, Eq, Structural)]
pub enum OutcomeKind {
    Coded { turns: u32 },
    CoderFailed,
    ChecksPassed,
    ChecksFailed,
    /// A commit was made, or there was nothing to commit.
    Committed,
    CommitFailed,
    Reviewed(ReviewResult),
    ReviewFailed,
    Verified(VerificationResult),
    VerificationFailed,
    PrCreated,
    PrFailed,
}

pub open spec fn outcome_kind(o: Outcome) -> OutcomeKind {
    match o {
        Outcome::Coded { turns } => OutcomeKind::Coded { turns },
        Outcome::CoderFailed(_) => OutcomeKind::CoderFailed,
        Outcome::ChecksPassed => OutcomeKind::ChecksPassed,
        Outcome::ChecksFailed(_) => OutcomeKind::ChecksFailed,
        Outcome::Committed(CommitOutcome::Failed(_)) => OutcomeKind::CommitFailed,
        Outcome::Committed(_) => OutcomeKind::Committed,
        Outcome::Reviewed(r) => OutcomeKind::Reviewed(r),
        Outcome::ReviewFailed(_) => OutcomeKind::ReviewFailed,
        Outcome::Verified(v) => OutcomeKind::Verified(v),
        Outcome::VerificationFailed(_) => OutcomeKind::VerificationFailed,
        Outcome::PrCreated(_) => OutcomeKind::PrCreated,
        Outcome::PrFailed(_) => OutcomeKind::PrFailed,
    }
}

/// The record of a finished run as plain values: total turns, review,
/// verification, and whether a pull request was created.
pub type RecordModel = (u32, ReviewResult, VerificationResult, bool);

/// A run as plain values.
pub struct RunModel {
    pub stage: Stage,
    /// Which phases are completed.
    pub completed: Seq<bool>,
    pub total_turns: u32,
    /// Turns of the phase in progress.
    pub phase_turns: u32,
    pub config: RunConfig,
    /// The plan defines neither criteria nor test commands.
    pub nothing_to_verify: bool,
    pub review: ReviewResult,
    pub verification: VerificationResult,
    pub record: Option<RecordModel>,
}

/// What one step yields: the run after it, the kinds of the events it emits,
/// whether the plan must be persisted, and the next action.
pub type StepModel = (RunModel, Seq<EventKind>, bool, Action);

/// The first phase at or after `i` that is not completed, or the number of phases.
pub open spec fn first_unfinished_from(c: Seq<bool>, i: int) -> int
    decreases c.len() - i,
{
    if i >= c.len() {
        c.len() as int
    } else if !c[i] {
        i
    } else {
        first_unfinished_from(c, i + 1)
    }
}

pub proof fn lemma_first_unfinished(c: Seq<bool>, i: int)
    requires
        0 <= i,
    ensures
        i <= first_unfinished_from(c, i) || c.len() < i,
        first_unfinished_from(c, i) <= c.len() || c.len() < i,
        first_unfinished_from(c, i) < c.len() ==> !c[first_unfinished_from(c, i)],
        forall|k: int| i <= k < first_unfinished_from(c, i) ==> c[k],
    decreases c.len() - i,
{
    if i < c.len() && c[i] {
        lemma_first_unfinished(c, i + 1);
    }
}

/// Some phase before `j` is completed.
pub open spec fn any_completed_before(c: Seq<bool>, j: int) -> bool {
    exists|k: int| 0 <= k < j && c[k]
}

pub open spec fn no_review() -> ReviewResult {
    ReviewResult { turns: 0, issues_found: 0, issues_fixed: 0 }
}

pub open spec fn enter_finalize(m: RunModel) -> StepModel {
    (RunModel { stage: Stage::Finalize, ..m }, Seq::empty(), false, Action::CreatePr)
}

pub open spec fn enter_verification(m: RunModel) -> StepModel {
    if m.config.verification && !m.nothing_to_verify {
        (
            RunModel { stage: Stage::Verification, ..m },
            seq![EventKind::VerificationStarted],
            false,
            Action::RunVerification,
        )
    } else {
        enter_finalize(
            RunModel { verification: VerificationResult { turns: 0, passed: true }, ..m },
        )
    }
}

pub open spec fn enter_review(m: RunModel) -> StepModel {
    if m.config.review {
        (
            RunModel { stage: Stage::Review, ..m },
            seq![EventKind::ReviewStarted],
            false,
            Action::RunReview,
        )
    } else {
        enter_verification(RunModel { review: no_review(), ..m })
    }
}

/// Starts the first unfinished phase at or after `from`, or the review step.
pub open spec fn enter_phase(m: RunModel, from: int) -> StepModel {
    let j = first_unfinished_from(m.completed, from);
    if j < m.completed.len() {
        (
            RunModel { stage: Stage::Phase(j as usize), phase_turns: 0, ..m },
            seq![EventKind::PhaseStarted { index: j as usize }],
            false,
            Action::RunPhase { index: j as usize, resume: any_completed_before(m.completed, j) },
        )
    } else {
        enter_review(m)
    }
}

/// Phase `i` is completed: persist, report, and go on.
pub open spec fn complete_phase(m: RunModel, i: int) -> StepModel {
    let next = enter_phase(RunModel { completed: m.completed.update(i, true), ..m }, i + 1);
    (next.0, seq![EventKind::PhaseCommitted { index: i as usize }] + next.1, true, next.3)
}

pub open spec fn after_checks(m: RunModel, i: int) -> StepModel {
    if m.config.auto_commit {
        (RunModel { stage: Stage::Commit(i as usize), ..m }, Seq::empty(), false, Action::Commit {
            index: i as usize,
        })
    } else {
        complete_phase(m, i)
    }
}

/// A fatal failure: report it and stop; persist where a phase failed.
pub open spec fn abort(m: RunModel, phase_failed: bool) -> StepModel {
    (RunModel { stage: Stage::Aborted, ..m }, seq![EventKind::Error], phase_failed, Action::Stop)
}

/// The end: record the totals, persist, report.
pub open spec fn finish(m: RunModel, has_pr: bool) -> StepModel {
    (
        RunModel {
            stage: Stage::Done,
            record: Some((m.total_turns, m.review, m.verification, has_pr)),
            ..m
        },
        seq![EventKind::Finished],
        true,
        Action::Stop,
    )
}

/// The action that a run in `m` waits on.
pub open spec fn current_action(m: RunModel) -> Action {
    match m.stage {
        Stage::Phase(i) => Action::RunPhase {
            index: i,
            resume: any_completed_before(m.completed, i as int),
        },
        Stage::Checks(i) => Action::RunChecks { index: i },
        Stage::Commit(i) => Action::Commit { index: i },
        Stage::Review => Action::RunReview,
        Stage::Verification => Action::RunVerification,
        Stage::Finalize => Action::CreatePr,
        _ => Action::Stop,
    }
}

/// Prefixes the events of a step with `e`.
pub open spec fn after_event(e: EventKind, s: StepModel) -> StepModel {
    (s.0, seq![e] + s.1, s.2, s.3)
}

/// The start of a run: report it, and start the first unfinished phase.
pub open spec fn start_model(m: RunModel) -> StepModel {
    after_event(
        EventKind::Started { total_phases: m.completed.len() as usize },
        enter_phase(m, 0),
    )
}

/// What a run in `m` does with outcome `o`. An outcome that does not answer
/// the current action changes nothing and asks for that action again.
pub open spec fn step_model(m: RunModel, o: OutcomeKind) -> StepModel {
    match (m.stage, o) {
        (Stage::Phase(i), OutcomeKind::Coded { turns }) => {
            let m2 = RunModel {
                total_turns: sat_add(m.total_turns, turns),
                phase_turns: turns,
                ..m
            };
            if m.config.checks {
                (
                    RunModel { stage: Stage::Checks(i), ..m2 },
                    Seq::empty(),
                    false,
                    Action::RunChecks { index: i },
                )
            } else {
                after_checks(m2, i as int)
            }
        },
        (Stage::Phase(_), OutcomeKind::CoderFailed) => abort(m, true),
        (Stage::Checks(i), OutcomeKind::ChecksPassed) => after_checks(m, i as int),
        (Stage::Checks(_), OutcomeKind::ChecksFailed) => abort(m, true),
        (Stage::Commit(i), OutcomeKind::Committed) => complete_phase(m, i as int),
        (Stage::Commit(_), OutcomeKind::CommitFailed) => abort(m, true),
        (Stage::Review, OutcomeKind::Reviewed(r)) => after_event(
            EventKind::ReviewCompleted { issue_count: r.issues_found },
            enter_verification(
                RunModel { total_turns: sat_add(m.total_turns, r.turns), review: r, ..m },
            ),
        ),
        (Stage::Review, OutcomeKind::ReviewFailed) => abort(m, false),
        (Stage::Verification, OutcomeKind::Verified(v)) => after_event(
            EventKind::VerificationCompleted { passed: v.passed },
            enter_finalize(
                RunModel { total_turns: sat_add(m.total_turns, v.turns), verification: v, ..m },
            ),
        ),
        (Stage::Verification, OutcomeKind::VerificationFailed) => after_event(
            EventKind::VerificationCompleted { passed: false },
            enter_finalize(
                RunModel { verification: VerificationResult { turns: 0, passed: false }, ..m },
            ),
        ),
        (Stage::Finalize, OutcomeKind::PrCreated) => after_event(
            EventKind::ChangeRequestCreated,
            finish(m, true),
        ),
        (Stage::Finalize, OutcomeKind::PrFailed) => after_event(EventKind::Error, finish(m, false)),
        _ => (m, Seq::empty(), false, current_action(m)),
    }
}

/// The run of one feature.
#[derive(Clone, Debug, PartialEq, Eq)]
pub struct Run {
    /// The plan, which the run updates as phases end.
    pub plan: FeatureSpec,
    pub stage: Stage,
    pub total_turns: u32,
    pub phase_turns: u32,
    pub config: RunConfig,
    pub nothing_to_verify: bool,
    pub review: ReviewResult,
    pub verification: VerificationResult,
}

/// Which phases of a plan are completed.
pub open spec fn completed_flags(spec: FeatureSpec) -> Seq<bool> {
    spec.phases@.map_values(|p: crate::plan::Phase| is_completed(p))
}

/// The record of a plan as plain values.
pub open spec fn record_of(spec: FeatureSpec) -> Option<RecordModel> {
    match spec.execution {
        Some(e) => Some((e.total_turns, e.review, e.verification, e.pr is Some)),
        None => None,
    }
}

impl Run {
    /// A phase that the run is working on exists and is not completed.
    pub open spec fn wf(&self) -> bool {
        match self.stage {
            Stage::Phase(i) | Stage::Checks(i) | Stage::Commit(i) => i < self.plan.phases@.len()
                && !completed_flags(self.plan)[i as int],
            _ => true,
        }
    }
}

impl View for Run {
    type V = RunModel;

    open spec fn view(&self) -> RunModel {
        RunModel {
            stage: self.stage,
            completed: completed_flags(self.plan),
            total_turns: self.total_turns,
            phase_turns: self.phase_turns,
            config: self.config,
            nothing_to_verify: self.nothing_to_verify,
            review: self.review,
            verification: self.verification,
            record: record_of(self.plan),
        }
    }
}

/// `b` is `a` with at most phase `i`'s result changed: the feature, the
/// verification plan, and every phase's name, description and tasks are kept.
pub open spec fn plan_frame(a: FeatureSpec, b: FeatureSpec, i: int) -> bool {
    &&& b.feature == a.feature
    &&& b.verification == a.verification
    &&& b.phases@.len() == a.phases@.len()
    &&& forall|j: int|
        0 <= j < a.phases@.len() ==> {
            &&& (#[trigger] b.phases@[j]).name == a.phases@[j].name
            &&& b.phases@[j].description == a.phases@[j].description
            &&& b.phases@[j].tasks == a.phases@[j].tasks
            &&& (j != i ==> b.phases@[j] == a.phases@[j])
        }
}

/// The phase that a run in `stage` works on, or -1.
pub open spec fn stage_index(stage: Stage) -> int {
    match stage {
        Stage::Phase(i) | Stage::Checks(i) | Stage::Commit(i) => i as int,
        _ => -1,
    }
}

/// A `PhaseStarted` event carries the name of its phase.
pub open spec fn names_phase(e: RunEvent, plan: FeatureSpec) -> bool {
    match e {
        RunEvent::PhaseStarted { index, name } => index < plan.phases@.len() && name
            == plan.phases@[index as int].name,
        _ => true,
    }
}

/// Every `PhaseStarted` event carries the name of its phase.
pub open spec fn names_phases(events: Seq<RunEvent>, plan: FeatureSpec) -> bool {
    forall|k: int| 0 <= k < events.len() ==> names_phase(#[trigger] events[k], plan)
}

proof fn lemma_names_push(events: Seq<RunEvent>, plan: FeatureSpec, e: RunEvent)
    requires
        names_phases(events, plan),
        names_phase(e, plan),
    ensures
        names_phases(events.push(e), plan),
{
    assert forall|k: int| 0 <= k < events.push(e).len() implies names_phase(
        #[trigger] events.push(e)[k],
        plan,
    ) by {
        if k < events.len() {
            assert(events.push(e)[k] == events[k]);
        }
    }
}

proof fn lemma_names_frame(events: Seq<RunEvent>, a: FeatureSpec, b: FeatureSpec, i: int)
    requires
        names_phases(events, a),
        plan_frame(a, b, i),
    ensures
        names_phases(events, b),
{
    assert forall|k: int| 0 <= k < events.len() implies names_phase(#[trigger] events[k], b) by {
        assert(names_phase(events[k], a));
        match events[k] {
            RunEvent::PhaseStarted { index, name } => {
                assert(b.phases@[index as int].name == a.phases@[index as int].name);
            },
            _ => {},
        }
    }
}

/// The step that `s` yields, with the events emitted before it in front.
pub open spec fn yields(
    before: Seq<RunEvent>,
    run: RunModel,
    events: Seq<RunEvent>,
    save: bool,
    action: Action,
    s: StepModel,
) -> bool {
    &&& run == s.0
    &&& before.len() <= events.len()
    &&& forall|k: int| 0 <= k < before.len() ==> #[trigger] events[k] == before[k]
    &&& kinds(events) == kinds(before) + s.1
    &&& save == s.2
    &&& action == s.3
}

/// Appends an event.
fn emit(events: &mut Vec<RunEvent>, e: RunEvent)
    ensures
        final(events)@ == old(events)@.push(e),
        kinds(final(events)@) == kinds(old(events)@) + seq![kind_of(e)],
{
    let ghost before = events@;
    events.push(e);
    assert(kinds(events@) =~= kinds(before) + seq![kind_of(e)]);
}

impl Run {
    /// The first phase at or after `from` that is not completed, or the
    /// number of phases.
    fn first_unfinished(&self, from: usize) -> (r: usize)
        ensures
            r as int == first_unfinished_from(completed_flags(self.plan), from as int),
    {
        let n = self.plan.phases.len();
        let ghost c = completed_flags(self.plan);
        if from >= n {
            return n;
        }
        let mut i = from;
        while i < n && phase_completed(&self.plan, i)
            invariant
                from <= i <= n,
                n == c.len(),
                c == completed_flags(self.plan),
                first_unfinished_from(c, from as int) == first_unfinished_from(c, i as int),
            decreases n - i,
        {
            i = i + 1;
        }
        i
    }

    /// Whether a phase before `j` is completed.
    fn completed_before(&self, j: usize) -> (r: bool)
        requires
            j <= self.plan.phases@.len(),
        ensures
            r == any_completed_before(completed_flags(self.plan), j as int),
    {
        let ghost c = completed_flags(self.plan);
        let mut k: usize = 0;
        while k < j
            invariant
                k <= j <= self.plan.phases@.len(),
                c == completed_flags(self.plan),
                forall|m: int| 0 <= m < k ==> !c[m],
            decreases j - k,
        {
            if phase_completed(&self.plan, k) {
                assert(c[k as int]);
                return true;
            }
            k = k + 1;
        }
        false
    }

    fn enter_finalize(&mut self, events: &mut Vec<RunEvent>) -> (r: (bool, Action))
        requires
            names_phases(old(events)@, old(self).plan),
        ensures
            names_phases(final(events)@, final(self).plan),
            final(self).plan == old(self).plan,
            yields(old(events)@, final(self)@, final(events)@, r.0, r.1, enter_finalize(old(self)@)),
            final(self).wf(),
    {
        self.stage = Stage::Finalize;
        (false, Action::CreatePr)
    }

    fn enter_verification(&mut self, events: &mut Vec<RunEvent>) -> (r: (bool, Action))
        requires
            names_phases(old(events)@, old(self).plan),
        ensures
            names_phases(final(events)@, final(self).plan),
            final(self).plan == old(self).plan,
            yields(old(events)@, final(self)@, final(events)@, r.0, r.1, enter_verification(old(self)@)),
            final(self).wf(),
    {
        if self.config.verification && !self.nothing_to_verify {
            self.stage = Stage::Verification;
            proof {
                lemma_names_push(events@, self.plan, RunEvent::VerificationStarted);
            }
            emit(events, RunEvent::VerificationStarted);
            (false, Action::RunVerification)
        } else {
            self.verification = VerificationResult { turns: 0, passed: true };
            self.enter_finalize(events)
        }
    }

    fn enter_review(&mut self, events: &mut Vec<RunEvent>) -> (r: (bool, Action))
        requires
            names_phases(old(events)@, old(self).plan),
        ensures
            names_phases(final(events)@, final(self).plan),
            final(self).plan == old(self).plan,
            yields(old(events)@, final(self)@, final(events)@, r.0, r.1, enter_review(old(self)@)),
            final(self).wf(),
    {
        if self.config.review {
            self.stage = Stage::Review;
            proof {
                lemma_names_push(events@, self.plan, RunEvent::ReviewStarted);
            }
            emit(events, RunEvent::ReviewStarted);
            (false, Action::RunReview)
        } else {
            self.review = ReviewResult { turns: 0, issues_found: 0, issues_fixed: 0 };
            self.enter_verification(events)
        }
    }

    fn enter_phase(&mut self, from: usize, events: &mut Vec<RunEvent>) -> (r: (bool, Action))
        requires
            names_phases(old(events)@, old(self).plan),
        ensures
            names_phases(final(events)@, final(self).plan),
            final(self).plan == old(self).plan,
            yields(old(events)@, final(self)@, final(events)@, r.0, r.1, enter_phase(old(self)@, from as int)),
            final(self).wf(),
    {
        let j = self.first_unfinished(from);
        proof {
            lemma_first_unfinished(completed_flags(self.plan), from as int);
        }
        if j < self.plan.phases.len() {
            let resume = self.completed_before(j);
            self.stage = Stage::Phase(j);
            self.phase_turns = 0;
            let name = self.plan.phases[j].name.clone();
            proof {
                lemma_names_push(events@, self.plan, RunEvent::PhaseStarted { index: j, name });
            }
            emit(events, RunEvent::PhaseStarted { index: j, name });
            (false, Action::RunPhase { index: j, resume })
        } else {
            self.enter_review(events)
        }
    }

    fn complete_phase(&mut self, i: usize, commit: Option<String>, events: &mut Vec<RunEvent>) -> (r: (
        bool,
        Action,
    ))
        requires
            i < old(self).plan.phases@.len(),
            names_phases(old(events)@, old(self).plan),
        ensures
            names_phases(final(events)@, final(self).plan),
            plan_frame(old(self).plan, final(self).plan, i as int),
            final(events)@.len() > old(events)@.len(),
            final(events)@[old(events)@.len() as int] == (RunEvent::PhaseCommitted { index: i, commit }),
            yields(old(events)@, final(self)@, final(events)@, r.0, r.1, complete_phase(old(self)@, i as int)),
            final(self).wf(),
            final(self).plan.phases@[i as int].result == Some(
                PhaseResult { status: StepStatus::Completed, turns: old(self).phase_turns, commit },
            ),
    {
        let ghost c0 = completed_flags(self.plan);
        let ghost k0 = kinds(events@);
        let n = self.plan.phases.len();
        let result = PhaseResult { status: StepStatus::Completed, turns: self.phase_turns, commit: commit.clone() };
        let ghost p0 = self.plan;
        set_phase_result(&mut self.plan, i, result);
        assert(completed_flags(self.plan) =~= c0.update(i as int, true));
        proof {
            lemma_names_frame(events@, p0, self.plan, i as int);
            lemma_names_push(events@, self.plan, RunEvent::PhaseCommitted { index: i, commit });
        }
        let ghost at = events@.len();
        emit(events, RunEvent::PhaseCommitted { index: i, commit });
        let ghost mid = events@;
        let (_, action) = self.enter_phase(i + 1, events);
        assert(events@[at as int] == mid[at as int]);
        proof {
            let nx = enter_phase(RunModel { completed: c0.update(i as int, true), ..old(self)@ }, i + 1);
            assert(kinds(events@) =~= k0 + (seq![EventKind::PhaseCommitted { index: i }] + nx.1));
        }
        (true, action)
    }

    fn after_checks(&mut self, i: usize, events: &mut Vec<RunEvent>) -> (r: (bool, Action))
        requires
            i < old(self).plan.phases@.len(),
            names_phases(old(events)@, old(self).plan),
        ensures
            names_phases(final(events)@, final(self).plan),
            plan_frame(old(self).plan, final(self).plan, i as int),
            old(self).config.auto_commit ==> final(self).plan == old(self).plan,
            !old(self).config.auto_commit ==> {
                &&& final(self).plan.phases@[i as int].result == Some(
                    PhaseResult {
                        status: StepStatus::Completed,
                        turns: old(self).phase_turns,
                        commit: None,
                    },
                )
                &&& final(events)@.len() > old(events)@.len()
                &&& final(events)@[old(events)@.len() as int] == (RunEvent::PhaseCommitted {
                    index: i,
                    commit: None,
                })
            },
            yields(old(events)@, final(self)@, final(events)@, r.0, r.1, after_checks(old(self)@, i as int)),
            !completed_flags(old(self).plan)[i as int] ==> final(self).wf(),
    {
        if self.config.auto_commit {
            self.stage = Stage::Commit(i);
            (false, Action::Commit { index: i })
        } else {
            self.complete_phase(i, None, events)
        }
    }

    fn abort(&mut self, failed_phase: Option<usize>, detail: String, events: &mut Vec<RunEvent>) -> (r: (
        bool,
        Action,
    ))
        requires
            failed_phase matches Some(i) ==> i < old(self).plan.phases@.len() && !completed_flags(
                old(self).plan,
            )[i as int],
            names_phases(old(events)@, old(self).plan),
        ensures
            names_phases(final(events)@, final(self).plan),
            plan_frame(
                old(self).plan,
                final(self).plan,
                match failed_phase {
                    Some(i) => i as int,
                    None => -1,
                },
            ),
            yields(old(events)@, final(self)@, final(events)@, r.0, r.1, abort(old(self)@, failed_phase is Some)),
            final(events)@.last() == (RunEvent::Error { detail }),
            final(self).wf(),
            failed_phase matches Some(i) ==> final(self).plan.phases@[i as int].result == Some(
                PhaseResult { status: StepStatus::Failed, turns: 0, commit: None },
            ),
    {
        let ghost c0 = completed_flags(self.plan);
        let ghost p0 = self.plan;
        let save = match failed_phase {
            Some(i) => {
                set_phase_result(
                    &mut self.plan,
                    i,
                    PhaseResult { status: StepStatus::Failed, turns: 0, commit: None },
                );
                assert(completed_flags(self.plan) =~= c0);
                true
            },
            None => false,
        };
        self.stage = Stage::Aborted;
        proof {
            let fi = match failed_phase {
                Some(i) => i as int,
                None => -1,
            };
            lemma_names_frame(events@, p0, self.plan, fi);
            lemma_names_push(events@, self.plan, RunEvent::Error { detail });
        }
        emit(events, RunEvent::Error { detail });
        (save, Action::Stop)
    }

    fn finish(&mut self, pr: Option<String>, events: &mut Vec<RunEvent>) -> (r: (bool, Action))
        requires
            names_phases(old(events)@, old(self).plan),
        ensures
            names_phases(final(events)@, final(self).plan),
            final(self).plan.phases == old(self).plan.phases,
            final(self).plan.feature == old(self).plan.feature,
            final(self).plan.verification == old(self).plan.verification,
            yields(old(events)@, final(self)@, final(events)@, r.0, r.1, finish(old(self)@, pr is Some)),
            final(self).wf(),
            final(self).plan.execution == Some(
                Execution {
                    status: StepStatus::Completed,
                    total_turns: old(self).total_turns,
                    review: old(self).review,
                    verification: old(self).verification,
                    pr,
                },
            ),
    {
        self.plan.execution = Some(
            Execution {
                status: StepStatus::Completed,
                total_turns: self.total_turns,
                review: self.review,
                verification: self.verification,
                pr,
            },
        );
        self.stage = Stage::Done;
        proof {
            assert forall|k: int| 0 <= k < events@.len() implies names_phase(
                #[trigger] events@[k],
                self.plan,
            ) by {
                assert(names_phase(events@[k], old(self).plan));
            }
            lemma_names_push(events@, self.plan, RunEvent::Finished);
        }
        emit(events, RunEvent::Finished);
        (true, Action::Stop)
    }
}

/// The run after each outcome in turn, and the kinds of all events emitted.
pub open spec fn trace(m: RunModel, outs: Seq<OutcomeKind>) -> (RunModel, Seq<EventKind>)
    decreases outs.len(),
{
    if outs.len() == 0 {
        (m, Seq::empty())
    } else {
        let s = step_model(m, outs[0]);
        let rest = trace(s.0, outs.drop_first());
        (rest.0, s.1 + rest.1)
    }
}

/// A phase that the run works on is not completed.
pub open spec fn model_wf(m: RunModel) -> bool {
    m.completed.len() <= usize::MAX && match m.stage {
        Stage::Phase(i) | Stage::Checks(i) | Stage::Commit(i) => i < m.completed.len()
            && !m.completed[i as int],
        _ => true,
    }
}

/// The collaborator is asked to work on phase `i` only where `i` is not completed.
pub open spec fn asks_only_unfinished(s: StepModel) -> bool {
    match s.3 {
        Action::RunPhase { index, .. } => index < s.0.completed.len() && !s.0.completed[index as int]
            && s.0.stage == Stage::Phase(index),
        _ => true,
    }
}

proof fn lemma_enter_phase_unfinished(m: RunModel, from: int)
    requires
        0 <= from,
        m.completed.len() <= usize::MAX,
    ensures
        asks_only_unfinished(enter_phase(m, from)),
        model_wf(enter_phase(m, from).0),
{
    lemma_first_unfinished(m.completed, from);
}

/// A run never asks to redo a completed phase: after its start, and after
/// any step from a well-formed state, a request to invoke the collaborator
/// names a phase that is not completed, and the run stays well-formed.
pub proof fn law_never_reruns_completed(m: RunModel, o: OutcomeKind)
    requires
        model_wf(m),
    ensures
        asks_only_unfinished(start_model(m)),
        model_wf(start_model(m).0),
        asks_only_unfinished(step_model(m, o)),
        model_wf(step_model(m, o).0),
{
    lemma_enter_phase_unfinished(m, 0);
    match m.stage {
        Stage::Phase(i) | Stage::Checks(i) | Stage::Commit(i) => {
            let m2 = RunModel { completed: m.completed.update(i as int, true), ..m };
            lemma_enter_phase_unfinished(m2, i + 1);
        },
        _ => {},
    }
}

/// Resume skips completed phases: where phase 0 is completed and phase 1 is
/// not, a run reports its start and then starts phase 1, asking for the
/// resume variant of the task; phase 0 is not worked on.
pub proof fn law_resume_skip(plan: FeatureSpec, config: RunConfig)
    requires
        plan.phases@.len() >= 2,
        is_completed(plan.phases@[0]),
        !is_completed(plan.phases@[1]),
    ensures
        start_model(initial_model(plan, config)).1 == seq![
            EventKind::Started { total_phases: plan.phases@.len() as usize },
            EventKind::PhaseStarted { index: 1 },
        ],
        start_model(initial_model(plan, config)).3 == (Action::RunPhase { index: 1, resume: true }),
        start_model(initial_model(plan, config)).0.stage == Stage::Phase(1),
{
    let m = initial_model(plan, config);
    let c = m.completed;
    assert(c[0] == is_completed(plan.phases@[0]));
    assert(c[1] == is_completed(plan.phases@[1]));
    assert(first_unfinished_from(c, 1) == 1);
    assert(first_unfinished_from(c, 0) == 1);
    assert(any_completed_before(c, 1));
    assert(seq![EventKind::Started { total_phases: plan.phases@.len() as usize }] + seq![
        EventKind::PhaseStarted { index: 1 },
    ] =~= seq![
        EventKind::Started { total_phases: plan.phases@.len() as usize },
        EventKind::PhaseStarted { index: 1 },
    ]);
}

/// The outcomes of one phase that succeeds in `t` turns, with its commit
/// where commits are automatic.
pub open spec fn phase_outcomes(auto_commit: bool, t: u32) -> Seq<OutcomeKind> {
    if auto_commit {
        seq![OutcomeKind::Coded { turns: t }, OutcomeKind::Committed]
    } else {
        seq![OutcomeKind::Coded { turns: t }]
    }
}

proof fn lemma_trace_append(m: RunModel, a: Seq<OutcomeKind>, b: Seq<OutcomeKind>)
    ensures
        trace(m, a + b) == (trace(trace(m, a).0, b).0, trace(m, a).1 + trace(trace(m, a).0, b).1),
    decreases a.len(),
{
    if a.len() == 0 {
        assert(a + b =~= b);
        assert(Seq::<EventKind>::empty() + trace(m, b).1 =~= trace(m, b).1);
    } else {
        let s = step_model(m, a[0]);
        assert((a + b).drop_first() =~= a.drop_first() + b);
        lemma_trace_append(s.0, a.drop_first(), b);
        let r1 = trace(s.0, a.drop_first());
        let r2 = trace(r1.0, b);
        assert(s.1 + (r1.1 + r2.1) =~= (s.1 + r1.1) + r2.1);
    }
}

/// End to end: a plan of two phases, none completed, with checks, review and
/// verification off. Each phase succeeds (and commits, where commits are
/// automatic), then the pull request is created or not. The run emits its
/// start, then each phase's start and commit, then the pull request's event,
/// and ends; the recorded total of turns is the sum of the two phases'.
pub proof fn law_two_phase_run(
    plan: FeatureSpec,
    config: RunConfig,
    t1: u32,
    t2: u32,
    pr_created: bool,
)
    requires
        plan.phases@.len() == 2,
        !is_completed(plan.phases@[0]),
        !is_completed(plan.phases@[1]),
        !config.checks,
        !config.review,
        !config.verification,
        t1 + t2 <= u32::MAX,
    ensures
        ({
            let s0 = start_model(initial_model(plan, config));
            let outs = phase_outcomes(config.auto_commit, t1) + phase_outcomes(config.auto_commit, t2)
                + seq![if pr_created { OutcomeKind::PrCreated } else { OutcomeKind::PrFailed }];
            let tr = trace(s0.0, outs);
            &&& s0.1 + tr.1 == seq![
                EventKind::Started { total_phases: 2 },
                EventKind::PhaseStarted { index: 0 },
                EventKind::PhaseCommitted { index: 0 },
                EventKind::PhaseStarted { index: 1 },
                EventKind::PhaseCommitted { index: 1 },
                if pr_created { EventKind::ChangeRequestCreated } else { EventKind::Error },
                EventKind::Finished,
            ]
            &&& tr.0.stage == Stage::Done
            &&& tr.0.record == Some(
                (
                    (t1 + t2) as u32,
                    no_review(),
                    VerificationResult { turns: 0, passed: true },
                    pr_created,
                ),
            )
        }),
{
    let m = initial_model(plan, config);
    let c = m.completed;
    assert(c[0] == is_completed(plan.phases@[0]));
    assert(c[1] == is_completed(plan.phases@[1]));
    assert(first_unfinished_from(c, 0) == 0);
    let s0 = start_model(m);
    let p1 = phase_outcomes(config.auto_commit, t1);
    let p2 = phase_outcomes(config.auto_commit, t2);
    let last = seq![if pr_created { OutcomeKind::PrCreated } else { OutcomeKind::PrFailed }];
    lemma_trace_append(s0.0, p1 + p2, last);
    lemma_trace_append(s0.0, p1, p2);
    reveal_with_fuel(trace, 3);
    reveal_with_fuel(first_unfinished_from, 3);
    // first phase
    let a = trace(s0.0, p1);
    let c1 = c.update(0, true);
    assert(first_unfinished_from(c1, 1) == 1);
    assert(any_completed_before(c1, 1)) by {
        assert(c1[0]);
    }
    if config.auto_commit {
        assert(p1.drop_first().drop_first() =~= Seq::<OutcomeKind>::empty());
        assert(p1.drop_first()[0] == OutcomeKind::Committed);
    } else {
        assert(p1.drop_first() =~= Seq::<OutcomeKind>::empty());
    }
    assert(a.0.completed == c1);
    assert(a.0.stage == Stage::Phase(1));
    assert(a.0.total_turns == t1);
    // second phase
    let b = trace(a.0, p2);
    let c2 = c1.update(1, true);
    assert(first_unfinished_from(c2, 2) == 2);
    if config.auto_commit {
        assert(p2.drop_first().drop_first() =~= Seq::<OutcomeKind>::empty());
        assert(p2.drop_first()[0] == OutcomeKind::Committed);
    } else {
        assert(p2.drop_first() =~= Seq::<OutcomeKind>::empty());
    }
    assert(b.0.stage == Stage::Finalize);
    assert(b.0.total_turns == t1 + t2);
    let f = trace(b.0, last);
    assert(last.drop_first() =~= Seq::<OutcomeKind>::empty());
    assert(f.0.stage == Stage::Done);
    let all = s0.1 + ((a.1 + b.1) + f.1);
    assert(all =~= seq![
        EventKind::Started { total_phases: 2 },
        EventKind::PhaseStarted { index: 0 },
        EventKind::PhaseCommitted { index: 0 },
        EventKind::PhaseStarted { index: 1 },
        EventKind::PhaseCommitted { index: 1 },
        if pr_created { EventKind::ChangeRequestCreated } else { EventKind::Error },
        EventKind::Finished,
    ]);
}

/// The task template for a phase: the resume variant where an earlier phase
/// is already completed.
pub fn task_template(resume: bool) -> (r: &'static str)
    ensures
        r@ == if resume { "code/resume"@ } else { "code/task"@ },
{
    if resume {
        "code/resume"
    } else {
        "code/task"
    }
}

/// The summary of a verification step's outcome.
pub fn verification_details(passed: bool) -> (r: String)
    ensures
        r@ == if passed { "all criteria passed"@ } else { "some criteria failed"@ },
{
    if passed {
        String::from_str("all criteria passed")
    } else {
        String::from_str("some criteria failed")
    }
}

/// A completed phase keeps its record: a step from a well-formed run changes
/// at most the phase it works on, which is never a completed one, so a plan
/// persisted on resume keeps the results of the phases done earlier.
pub proof fn law_completed_phase_kept(before: Run, after: FeatureSpec, i: int)
    requires
        before.wf(),
        plan_frame(before.plan, after, stage_index(before.stage)),
        0 <= i < before.plan.phases@.len(),
        is_completed(before.plan.phases@[i]),
    ensures
        after.phases@[i] == before.plan.phases@[i],
{
    assert(completed_flags(before.plan)[i] == is_completed(before.plan.phases@[i]));
}

/// What a step hands the caller.
#[derive(Clone, Debug, PartialEq, Eq)]
pub struct StepOutput {
    /// Events to emit, in order.
    pub events: Vec<RunEvent>,
    /// The plan must be persisted before the events are emitted.
    pub save: bool,
    pub action: Action,
}

/// A run of a plan before its first step.
pub open spec fn initial_model(plan: FeatureSpec, config: RunConfig) -> RunModel {
    RunModel {
        stage: Stage::Phase(0),
        completed: completed_flags(plan),
        total_turns: 0,
        phase_turns: 0,
        config,
        nothing_to_verify: plan.verification.criteria@.len() == 0
            && plan.verification.test_commands@.len() == 0,
        review: no_review(),
        verification: VerificationResult { turns: 0, passed: true },
        record: record_of(plan),
    }
}

impl Run {
    /// Starts a run of `plan`: reports the start and begins the first phase
    /// that is not completed, or the review step where there is none.
    pub fn new(plan: FeatureSpec, config: RunConfig) -> (r: (Run, StepOutput))
        ensures
            r.0.wf(),
            r.0.plan == plan,
            yields(
                Seq::empty(),
                r.0@,
                r.1.events@,
                r.1.save,
                r.1.action,
                start_model(initial_model(plan, config)),
            ),
            r.1.events@.len() > 0 && r.1.events@[0] == (RunEvent::Started {
                feature: plan.feature,
                total_phases: plan.phases@.len() as usize,
            }),
            names_phases(r.1.events@, plan),
    {
        let nothing_to_verify = verification_is_empty(&plan);
        let feature = plan.feature.clone();
        let total_phases = plan.phases.len();
        let mut run = Run {
            plan,
            stage: Stage::Phase(0),
            total_turns: 0,
            phase_turns: 0,
            config,
            nothing_to_verify,
            review: ReviewResult { turns: 0, issues_found: 0, issues_fixed: 0 },
            verification: VerificationResult { turns: 0, passed: true },
        };
        let mut events: Vec<RunEvent> = Vec::new();
        emit(&mut events, RunEvent::Started { feature, total_phases });
        let ghost k0 = kinds(events@);
        let ghost e0 = events@;
        let (save, action) = run.enter_phase(0, &mut events);
        proof {
            let nx = enter_phase(initial_model(run.plan, config), 0);
            assert(kinds(events@) =~= Seq::<EventKind>::empty() + (seq![
                EventKind::Started { total_phases: total_phases },
            ] + nx.1));
            assert(events@[0] == e0[0]);
        }
        (run, StepOutput { events, save, action })
    }

    /// Takes the outcome of the current action: records it in the run and the
    /// plan, and says what to emit, whether to persist, and what to do next.
    /// A phase that fails, by its collaborator, its checks or its commit, is
    /// recorded as failed and ends the run; so does a failed review. A failed
    /// verification is recorded as not passed, and a failed pull request as
    /// none; the run goes on to its end.
    #[verifier::rlimit(100)]
    pub fn step(&mut self, o: Outcome) -> (r: StepOutput)
        requires
            old(self).wf(),
        ensures
            final(self).wf(),
            plan_frame(old(self).plan, final(self).plan, stage_index(old(self).stage)),
            names_phases(r.events@, final(self).plan),
            yields(
                Seq::empty(),
                final(self)@,
                r.events@,
                r.save,
                r.action,
                step_model(old(self)@, outcome_kind(o)),
            ),
            match (old(self).stage, o) {
                (Stage::Phase(i), Outcome::Coded { turns }) => if !old(self).config.checks
                    && !old(self).config.auto_commit {
                    &&& final(self).plan.phases@[i as int].result == Some(
                        PhaseResult { status: StepStatus::Completed, turns, commit: None },
                    )
                    &&& r.events@.len() > 0
                    &&& r.events@[0] == (RunEvent::PhaseCommitted { index: i, commit: None })
                } else {
                    final(self).plan == old(self).plan
                },
                (Stage::Phase(i), Outcome::CoderFailed(d)) => {
                    &&& final(self).plan.phases@[i as int].result == Some(
                        PhaseResult { status: StepStatus::Failed, turns: 0, commit: None },
                    )
                    &&& r.events@.last() == (RunEvent::Error { detail: d })
                },
                (Stage::Checks(i), Outcome::ChecksPassed) => if !old(self).config.auto_commit {
                    &&& final(self).plan.phases@[i as int].result == Some(
                        PhaseResult {
                            status: StepStatus::Completed,
                            turns: old(self).phase_turns,
                            commit: None,
                        },
                    )
                    &&& r.events@.len() > 0
                    &&& r.events@[0] == (RunEvent::PhaseCommitted { index: i, commit: None })
                } else {
                    final(self).plan == old(self).plan
                },
                (Stage::Checks(i), Outcome::ChecksFailed(d)) => {
                    &&& final(self).plan.phases@[i as int].result == Some(
                        PhaseResult { status: StepStatus::Failed, turns: 0, commit: None },
                    )
                    &&& r.events@.last() == (RunEvent::Error { detail: d })
                },
                (Stage::Commit(i), Outcome::Committed(CommitOutcome::Committed(h))) => {
                    &&& final(self).plan.phases@[i as int].result == Some(
                        PhaseResult {
                            status: StepStatus::Completed,
                            turns: old(self).phase_turns,
                            commit: Some(h),
                        },
                    )
                    &&& r.events@.len() > 0
                    &&& r.events@[0] == (RunEvent::PhaseCommitted { index: i, commit: Some(h) })
                },
                (Stage::Commit(i), Outcome::Committed(CommitOutcome::NoChanges)) => {
                    &&& final(self).plan.phases@[i as int].result == Some(
                        PhaseResult {
                            status: StepStatus::Completed,
                            turns: old(self).phase_turns,
                            commit: None,
                        },
                    )
                    &&& r.events@.len() > 0
                    &&& r.events@[0] == (RunEvent::PhaseCommitted { index: i, commit: None })
                },
                (Stage::Commit(i), Outcome::Committed(CommitOutcome::Failed(d))) => {
                    &&& final(self).plan.phases@[i as int].result == Some(
                        PhaseResult { status: StepStatus::Failed, turns: 0, commit: None },
                    )
                    &&& r.events@.last() == (RunEvent::Error { detail: d })
                },
                (Stage::Review, Outcome::ReviewFailed(d)) => r.events@.last() == (RunEvent::Error {
                    detail: d,
                }),
                (Stage::Finalize, Outcome::PrCreated(u)) => r.events@.len() > 0 && r.events@[0]
                    == (RunEvent::ChangeRequestCreated { url: u }),
                (Stage::Finalize, Outcome::PrFailed(d)) => r.events@.len() > 0 && r.events@[0]
                    == (RunEvent::Error { detail: d }),
                _ => final(self).plan.phases == old(self).plan.phases,
            },
            final(self).stage == Stage::Done ==> final(self).plan.execution == Some(
                Execution {
                    status: StepStatus::Completed,
                    total_turns: final(self).total_turns,
                    review: final(self).review,
                    verification: final(self).verification,
                    pr: match o {
                        Outcome::PrCreated(u) => Some(u),
                        _ => None,
                    },
                },
            ) || old(self).stage == Stage::Done,
    {
        let mut events: Vec<RunEvent> = Vec::new();
        let ghost m = self@;
        let ghost ok = outcome_kind(o);
        let stage = self.stage;
        let (save, action) = match stage {
            Stage::Phase(i) => match o {
                Outcome::Coded { turns } => {
                    self.total_turns = saturating_add(self.total_turns, turns);
                    self.phase_turns = turns;
                    if self.config.checks {
                        self.stage = Stage::Checks(i);
                        (false, Action::RunChecks { index: i })
                    } else {
                        self.after_checks(i, &mut events)
                    }
                },
                Outcome::CoderFailed(d) => self.abort(Some(i), d, &mut events),
                _ => (false, self.current_action()),
            },
            Stage::Checks(i) => match o {
                Outcome::ChecksPassed => self.after_checks(i, &mut events),
                Outcome::ChecksFailed(d) => self.abort(Some(i), d, &mut events),
                _ => (false, self.current_action()),
            },
            Stage::Commit(i) => match o {
                Outcome::Committed(c) => match c {
                    CommitOutcome::Committed(h) => self.complete_phase(i, Some(h), &mut events),
                    CommitOutcome::NoChanges => self.complete_phase(i, None, &mut events),
                    CommitOutcome::Failed(d) => self.abort(Some(i), d, &mut events),
                },
                _ => (false, self.current_action()),
            },
            Stage::Review => match o {
                Outcome::Reviewed(res) => {
                    self.total_turns = saturating_add(self.total_turns, res.turns);
                    self.review = res;
                    emit(&mut events, RunEvent::ReviewCompleted { issue_count: res.issues_found });
                    let ghost k1 = kinds(events@);
                    let ghost m1 = self@;
                    let (sv, ac) = self.enter_verification(&mut events);
                    proof {
                        assert(kinds(events@) =~= Seq::<EventKind>::empty() + (seq![
                            EventKind::ReviewCompleted { issue_count: res.issues_found },
                        ] + enter_verification(m1).1));
                    }
                    (sv, ac)
                },
                Outcome::ReviewFailed(d) => self.abort(None, d, &mut events),
                _ => (false, self.current_action()),
            },
            Stage::Verification => match o {
                Outcome::Verified(v) => {
                    self.total_turns = saturating_add(self.total_turns, v.turns);
                    self.verification = v;
                    let details = verification_details(v.passed);
                    emit(&mut events, RunEvent::VerificationCompleted { passed: v.passed, details });
                    self.enter_finalize(&mut events)
                },
                Outcome::VerificationFailed(_) => {
                    self.verification = VerificationResult { turns: 0, passed: false };
                    let details = verification_details(false);
                    emit(&mut events, RunEvent::VerificationCompleted { passed: false, details });
                    self.enter_finalize(&mut events)
                },
                _ => (false, self.current_action()),
            },
            Stage::Finalize => match o {
                Outcome::PrCreated(u) => {
                    emit(&mut events, RunEvent::ChangeRequestCreated { url: u.clone() });
                    self.finish(Some(u), &mut events)
                },
                Outcome::PrFailed(d) => {
                    emit(&mut events, RunEvent::Error { detail: d });
                    self.finish(None, &mut events)
                },
                _ => (false, self.current_action()),
            },
            _ => (false, self.current_action()),
        };
        StepOutput { events, save, action }
    }

    fn current_action(&self) -> (r: Action)
        requires
            self.wf(),
        ensures
            r == current_action(self@),
    {
        match self.stage {
            Stage::Phase(i) => {
                let resume = self.completed_before(i);
                Action::RunPhase { index: i, resume }
            },
            Stage::Checks(i) => Action::RunChecks { index: i },
            Stage::Commit(i) => Action::Commit { index: i },
            Stage::Review => Action::RunReview,
            Stage::Verification => Action::RunVerification,
            Stage::Finalize => Action::CreatePr,
            _ => Action::Stop,
        }
    }
}

} // verus!
