//! The resumable plan of a feature: its phases, their results, the
//! verification plan and the record of a finished run.
use vstd::prelude::*;

use crate::config::{joined, join_path};

verus! {

/// Where a step stands.
#[derive(Clone, Copy, Debug, PartialEq, Eq, Structural)]
pub enum StepStatus {
    Pending,
    InProgress,
    Completed,
    Failed,
}

impl Default for StepStatus {
    fn default() -> (r: Self)
        ensures
            r == StepStatus::Pending,
    {
        StepStatus::Pending
    }
}

/// The outcome of one attempt at a phase.
#[derive(Clone, Debug, PartialEq, Eq)]
pub struct PhaseResult {
    pub status: StepStatus,
    pub turns: u32,
    /// Absent where the phase changed nothing.
    pub commit: Option<String>,
}

/// A phase result as plain values.
pub type PhaseResultModel = (StepStatus, u32, Option<Seq<char>>);

/// The view of an optional string.
pub open spec fn opt_view(o: Option<String>) -> Option<Seq<char>> {
    match o {
        Some(s) => Some(s@),
        None => None,
    }
}

impl View for PhaseResult {
    type V = PhaseResultModel;

    open spec fn view(&self) -> PhaseResultModel {
        (self.status, self.turns, opt_view(self.commit))
    }
}

/// One ordered unit of change within a feature.
#[derive(Clone, Debug, PartialEq, Eq)]
pub struct Phase {
    pub name: String,
    pub description: String,
    pub tasks: Vec<String>,
    pub result: Option<PhaseResult>,
}

/// The result of a phase, as plain values.
pub open spec fn result_view(p: Phase) -> Option<PhaseResultModel> {
    match p.result {
        Some(r) => Some(r@),
        None => None,
    }
}

/// A phase is done: a run completed it, and later runs skip it.
pub open spec fn is_completed(p: Phase) -> bool {
    match p.result {
        Some(r) => r.status == StepStatus::Completed,
        None => false,
    }
}

/// How a run checks the feature once all phases are done.
#[derive(Clone, Debug, PartialEq, Eq)]
pub struct VerificationPlan {
    pub criteria: Vec<String>,
    pub test_commands: Vec<String>,
}

/// What the review step achieved.
#[derive(Clone, Copy, Debug, PartialEq, Eq, Structural)]
pub struct ReviewResult {
    pub turns: u32,
    pub issues_found: u32,
    pub issues_fixed: u32,
}

/// What the verification step achieved.
#[derive(Clone, Copy, Debug, PartialEq, Eq, Structural)]
pub struct VerificationResult {
    pub turns: u32,
    pub passed: bool,
}

/// The record of a run that reached its end.
#[derive(Clone, Debug, PartialEq, Eq)]
pub struct Execution {
    pub status: StepStatus,
    pub total_turns: u32,
    pub review: ReviewResult,
    pub verification: VerificationResult,
    pub pr: Option<String>,
}

/// The plan of one feature.
#[derive(Clone, Debug, PartialEq, Eq)]
pub struct FeatureSpec {
    pub feature: String,
    pub phases: Vec<Phase>,
    pub verification: VerificationPlan,
    /// Present once a run has reached its end.
    pub execution: Option<Execution>,
}

/// Whether phase `i` of `spec` is done.
pub fn phase_completed(spec: &FeatureSpec, i: usize) -> (r: bool)
    requires
        i < spec.phases@.len(),
    ensures
        r == is_completed(spec.phases@[i as int]),
{
    match &spec.phases[i].result {
        Some(res) => res.status == StepStatus::Completed,
        None => false,
    }
}

/// The verification step has nothing to check: the plan names neither
/// criteria nor test commands.
pub fn verification_is_empty(spec: &FeatureSpec) -> (r: bool)
    ensures
        r == (spec.verification.criteria@.len() == 0 && spec.verification.test_commands@.len()
            == 0),
{
    spec.verification.criteria.len() == 0 && spec.verification.test_commands.len() == 0
}

/// Sets the result of phase `i`, leaving every other part of the plan as it was.
pub fn set_phase_result(spec: &mut FeatureSpec, i: usize, result: PhaseResult)
    requires
        i < old(spec).phases@.len(),
    ensures
        final(spec).phases@.len() == old(spec).phases@.len(),
        final(spec).phases@[i as int].result == Some(result),
        final(spec).phases@[i as int].name == old(spec).phases@[i as int].name,
        final(spec).phases@[i as int].description == old(spec).phases@[i as int].description,
        final(spec).phases@[i as int].tasks == old(spec).phases@[i as int].tasks,
        forall|j: int|
            0 <= j < final(spec).phases@.len() && j != i ==> #[trigger] final(spec).phases@[j]
                == old(spec).phases@[j],
        final(spec).feature == old(spec).feature,
        final(spec).verification == old(spec).verification,
        final(spec).execution == old(spec).execution,
{
    let mut p = spec.phases.remove(i);
    p.result = Some(result);
    spec.phases.insert(i, p);
}

/// `<gba>/features/<slug>`, where a feature's files stand.
pub fn feature_dir(gba_dir: &str, slug: &str) -> (r: String)
    ensures
        r@ == joined(joined(gba_dir@, "features"@), slug@),
{
    let f = join_path(gba_dir, "features");
    join_path(f.as_str(), slug)
}

/// `<gba>/features/<slug>/phases.yaml`, the plan file.
pub fn phases_path(gba_dir: &str, slug: &str) -> (r: String)
    ensures
        r@ == joined(joined(joined(gba_dir@, "features"@), slug@), "phases.yaml"@),
{
    let d = feature_dir(gba_dir, slug);
    join_path(d.as_str(), "phases.yaml")
}

/// `<gba>/features/<slug>/specs/<name>`, a companion document.
pub fn spec_doc_path(gba_dir: &str, slug: &str, name: &str) -> (r: String)
    ensures
        r@ == joined(joined(joined(joined(gba_dir@, "features"@), slug@), "specs"@), name@),
{
    let d = feature_dir(gba_dir, slug);
    let s = join_path(d.as_str(), "specs");
    join_path(s.as_str(), name)
}

/// A completed phase, as the context of later phases sees it.
#[derive(Clone, Debug, PartialEq, Eq)]
pub struct CompletedPhase {
    /// One-based position in the plan.
    pub index: usize,
    pub name: String,
    /// The commit, or `unknown` where the phase recorded none.
    pub commit: String,
}

/// The positions of the completed phases among `phases`, in order.
pub open spec fn completed_positions(phases: Seq<Phase>) -> Seq<int>
    decreases phases.len(),
{
    if phases.len() == 0 {
        Seq::empty()
    } else {
        let prev = completed_positions(phases.drop_last());
        if is_completed(phases.last()) {
            prev.push(phases.len() - 1)
        } else {
            prev
        }
    }
}

/// What the context of a later phase says of completed phase `i`.
pub open spec fn describes(c: CompletedPhase, phases: Seq<Phase>, i: int) -> bool {
    &&& c.index == i + 1
    &&& c.name@ == phases[i].name@
    &&& c.commit@ == match phases[i].result {
        Some(res) => match res.commit {
            Some(h) => h@,
            None => "unknown"@,
        },
        None => "unknown"@,
    }
}

/// Lists the completed phases before phase `end`, in order: the context of
/// a run that resumes at `end`.
pub fn completed_phases_before(spec: &FeatureSpec, end: usize) -> (r: Vec<CompletedPhase>)
    requires
        end <= spec.phases@.len(),
    ensures
        r@.len() == completed_positions(spec.phases@.subrange(0, end as int)).len(),
        forall|k: int|
            0 <= k < r@.len() ==> describes(
                r@[k],
                spec.phases@,
                #[trigger] completed_positions(spec.phases@.subrange(0, end as int))[k],
            ),
{
    let mut r: Vec<CompletedPhase> = Vec::new();
    let mut i: usize = 0;
    while i < end
        invariant
            i <= end <= spec.phases@.len(),
            r@.len() == completed_positions(spec.phases@.subrange(0, i as int)).len(),
            forall|k: int|
                0 <= k < r@.len() ==> {
                    let j = #[trigger] completed_positions(spec.phases@.subrange(0, i as int))[k];
                    &&& 0 <= j < i
                    &&& describes(r@[k], spec.phases@, j)
                },
        decreases end - i,
    {
        let ghost prev = spec.phases@.subrange(0, i as int);
        let ghost next = spec.phases@.subrange(0, i + 1);
        assert(next.drop_last() =~= prev);
        if phase_completed(spec, i) {
            let p = &spec.phases[i];
            let commit = match &p.result {
                Some(res) => match &res.commit {
                    Some(c) => c.clone(),
                    None => String::from_str("unknown"),
                },
                None => String::from_str("unknown"),
            };
            r.push(CompletedPhase { index: i + 1, name: p.name.clone(), commit });
        }
        i = i + 1;
    }
    r
}

/// Lists the completed phases of a plan, in order.
pub fn collect_completed_phases(spec: &FeatureSpec) -> (r: Vec<CompletedPhase>)
    ensures
        r@.len() == completed_positions(spec.phases@).len(),
        forall|k: int|
            0 <= k < r@.len() ==> describes(
                r@[k],
                spec.phases@,
                #[trigger] completed_positions(spec.phases@)[k],
            ),
{
    assert(spec.phases@.subrange(0, spec.phases@.len() as int) =~= spec.phases@);
    completed_phases_before(spec, spec.phases.len())
}

} // verus!
