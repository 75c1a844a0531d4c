//! The check cycle: named shell checks gate each phase's commit, and failing
//! checks get a bounded number of fix rounds.
//!
//! The caller runs the checks and the fixes; this module decides what comes
//! next from what they reported.
use vstd::prelude::*;

use crate::config::{Hook, HooksConfig};
use crate::events::RunEvent;

verus! {

/// The checks of a project and the number of fix rounds they allow.
#[derive(Clone, Debug, PartialEq, Eq)]
pub struct HookRunner {
    pub hooks: Vec<Hook>,
    pub max_retries: u32,
}

impl HookRunner {
    pub fn new(config: &HooksConfig) -> (r: Self)
        ensures
            r.max_retries == config.max_retries,
            r.hooks@.len() == config.pre_commit@.len(),
            forall|i: int|
                0 <= i < r.hooks@.len() ==> (#[trigger] r.hooks@[i]).name@
                    == config.pre_commit@[i].name@ && r.hooks@[i].command@
                    == config.pre_commit@[i].command@,
    {
        let mut hooks: Vec<Hook> = Vec::new();
        let mut i: usize = 0;
        while i < config.pre_commit.len()
            invariant
                i <= config.pre_commit@.len(),
                hooks@.len() == i,
                forall|j: int|
                    0 <= j < i ==> (#[trigger] hooks@[j]).name@ == config.pre_commit@[j].name@
                        && hooks@[j].command@ == config.pre_commit@[j].command@,
            decreases config.pre_commit@.len() - i,
        {
            hooks.push(config.pre_commit[i].duplicate());
            i = i + 1;
        }
        HookRunner { hooks, max_retries: config.max_retries }
    }

    pub fn max_retries(&self) -> (r: u32)
        ensures
            r == self.max_retries,
    {
        self.max_retries
    }

    pub fn has_hooks(&self) -> (r: bool)
        ensures
            r == (self.hooks@.len() > 0),
    {
        self.hooks.len() > 0
    }
}

/// What one check reported.
#[derive(Clone, Debug, PartialEq, Eq)]
pub struct HookOutput {
    pub name: String,
    pub command: String,
    pub passed: bool,
    pub stdout: String,
    pub stderr: String,
}

/// What the cycle does after a round of checks.
#[derive(Clone, Debug, PartialEq, Eq)]
pub enum CheckDecision {
    /// Every check passed.
    Passed,
    /// The last round failed; the names of the failing checks.
    Exhausted(Vec<String>),
    /// Fix the checks at these positions, then run every check again.
    Fix(Vec<usize>),
}

/// The decision without its data.
#[derive(Clone, Copy, Debug, PartialEq, Eq, Structural)]
pub enum DecisionKind {
    Passed,
    Exhausted,
    Fix,
}

/// Every check of the round passed.
pub open spec fn all_passed(passed: Seq<bool>) -> bool {
    forall|i: int| 0 <= i < passed.len() ==> #[trigger] passed[i]
}

/// The decision after round `attempt` (from 0) with at most `max` fix rounds.
pub open spec fn decide(attempt: int, max: int, passed: Seq<bool>) -> DecisionKind {
    if all_passed(passed) {
        DecisionKind::Passed
    } else if attempt >= max {
        DecisionKind::Exhausted
    } else {
        DecisionKind::Fix
    }
}

/// Whether each check of a round passed.
pub open spec fn passes(results: Seq<HookOutput>) -> Seq<bool> {
    results.map_values(|h: HookOutput| h.passed)
}

/// The positions of the failing checks, in order.
pub open spec fn failing_positions(passed: Seq<bool>) -> Seq<int>
    decreases passed.len(),
{
    if passed.len() == 0 {
        Seq::empty()
    } else if passed.last() {
        failing_positions(passed.drop_last())
    } else {
        failing_positions(passed.drop_last()).push(passed.len() - 1)
    }
}

/// Decides what follows a round of checks: success where all passed; after
/// round `max_retries` (counting from 0), failure naming each failing check;
/// otherwise a fix for each failing check, in order.
pub fn check_decision(attempt: u32, max_retries: u32, results: &Vec<HookOutput>) -> (r:
    CheckDecision)
    ensures
        decide(attempt as int, max_retries as int, passes(results@)) == match r {
            CheckDecision::Passed => DecisionKind::Passed,
            CheckDecision::Exhausted(_) => DecisionKind::Exhausted,
            CheckDecision::Fix(_) => DecisionKind::Fix,
        },
        r matches CheckDecision::Exhausted(names) ==> {
            &&& names@.len() == failing_positions(passes(results@)).len()
            &&& forall|k: int|
                0 <= k < names@.len() ==> (#[trigger] names@[k])@
                    == results@[failing_positions(passes(results@))[k]].name@
        },
        r matches CheckDecision::Fix(idx) ==> {
            &&& idx@.len() == failing_positions(passes(results@)).len()
            &&& forall|k: int|
                0 <= k < idx@.len() ==> #[trigger] idx@[k] as int == failing_positions(
                    passes(results@),
                )[k]
        },
{
    let mut names: Vec<String> = Vec::new();
    let mut idx: Vec<usize> = Vec::new();
    let mut i: usize = 0;
    while i < results.len()
        invariant
            i <= results@.len(),
            names@.len() == idx@.len(),
            idx@.len() == failing_positions(passes(results@.subrange(0, i as int))).len(),
            forall|k: int|
                0 <= k < idx@.len() ==> {
                    &&& #[trigger] idx@[k] as int == failing_positions(
                        passes(results@.subrange(0, i as int)),
                    )[k]
                    &&& 0 <= idx@[k] < i
                    &&& names@[k]@ == results@[idx@[k] as int].name@
                },
        decreases results@.len() - i,
    {
        let ghost p0 = passes(results@.subrange(0, i as int));
        let ghost p1 = passes(results@.subrange(0, i + 1));
        assert(p1.drop_last() =~= p0);
        if !results[i].passed {
            names.push(results[i].name.clone());
            idx.push(i);
        }
        i = i + 1;
    }
    assert(results@.subrange(0, i as int) =~= results@);
    let ghost p = passes(results@);
    if idx.len() == 0 {
        proof {
            lemma_no_failing_all_passed(p);
        }
        CheckDecision::Passed
    } else {
        proof {
            lemma_failing_not_all_passed(p);
        }
        if attempt >= max_retries {
            proof {
                assert forall|k: int| 0 <= k < names@.len() implies (#[trigger] names@[k])@
                    == results@[failing_positions(p)[k]].name@ by {
                    assert(idx@[k] as int == failing_positions(p)[k]);
                }
            }
            CheckDecision::Exhausted(names)
        } else {
            CheckDecision::Fix(idx)
        }
    }
}

pub proof fn lemma_no_failing_all_passed(p: Seq<bool>)
    requires
        failing_positions(p).len() == 0,
    ensures
        all_passed(p),
    decreases p.len(),
{
    if p.len() > 0 {
        lemma_no_failing_all_passed(p.drop_last());
        assert forall|i: int| 0 <= i < p.len() implies #[trigger] p[i] by {
            if i < p.len() - 1 {
                assert(p.drop_last()[i] == p[i]);
            }
        }
    }
}

pub proof fn lemma_failing_not_all_passed(p: Seq<bool>)
    requires
        failing_positions(p).len() > 0,
    ensures
        !all_passed(p),
    decreases p.len(),
{
    if p.len() > 0 && p.last() {
        lemma_failing_not_all_passed(p.drop_last());
        let i = choose|i: int| 0 <= i < p.drop_last().len() && !p.drop_last()[i];
        assert(!p[i]);
    }
}

/// `e` reports the outcome of check `h`.
pub open spec fn reports(e: RunEvent, h: HookOutput) -> bool {
    match e {
        RunEvent::CheckResult { name, passed } => name@ == h.name@ && passed == h.passed,
        _ => false,
    }
}

/// One `CheckResult` event per check of the round, in order.
pub fn check_events(results: &Vec<HookOutput>) -> (r: Vec<RunEvent>)
    ensures
        r@.len() == results@.len(),
        forall|k: int|
            0 <= k < r@.len() ==> reports(#[trigger] r@[k], results@[k]),
{
    let mut r: Vec<RunEvent> = Vec::new();
    let mut i: usize = 0;
    while i < results.len()
        invariant
            i <= results@.len(),
            r@.len() == i,
            forall|k: int|
                0 <= k < i ==> reports(#[trigger] r@[k], results@[k]),
        decreases results@.len() - i,
    {
        r.push(RunEvent::CheckResult { name: results[i].name.clone(), passed: results[i].passed });
        i = i + 1;
    }
    r
}

/// How many rounds a check cycle runs from round `attempt` on, and how it
/// ends, where `rounds[k]` is what round `k` reported. A cycle that still
/// wants fixes when the rounds run out ends in `Fix`.
pub open spec fn cycle_from(attempt: nat, max: nat, rounds: Seq<Seq<HookOutput>>) -> (
    nat,
    DecisionKind,
)
    decreases rounds.len() - attempt,
{
    if attempt >= rounds.len() {
        (attempt, DecisionKind::Fix)
    } else {
        match decide(attempt as int, max as int, passes(rounds[attempt as int])) {
            DecisionKind::Fix => cycle_from(attempt + 1, max, rounds),
            k => (attempt + 1, k),
        }
    }
}

/// What a round reports: each check's name and whether it passed, in order.
pub open spec fn round_reports(round: Seq<HookOutput>) -> Seq<(Seq<char>, bool)> {
    round.map_values(|h: HookOutput| (h.name@, h.passed))
}

/// The reports of the rounds that a cycle runs from round `attempt` on.
pub open spec fn cycle_reports(attempt: nat, max: nat, rounds: Seq<Seq<HookOutput>>) -> Seq<
    (Seq<char>, bool),
>
    decreases rounds.len() - attempt,
{
    if attempt >= rounds.len() {
        Seq::empty()
    } else {
        round_reports(rounds[attempt as int]) + match decide(
            attempt as int,
            max as int,
            passes(rounds[attempt as int]),
        ) {
            DecisionKind::Fix => cycle_reports(attempt + 1, max, rounds),
            _ => Seq::empty(),
        }
    }
}

/// The reports of rounds `from..to`, one after another.
pub open spec fn reports_between(rounds: Seq<Seq<HookOutput>>, from: int, to: int) -> Seq<
    (Seq<char>, bool),
>
    decreases to - from,
{
    if from >= to {
        Seq::empty()
    } else {
        round_reports(rounds[from]) + reports_between(rounds, from + 1, to)
    }
}

proof fn lemma_cycle_fails_from(attempt: nat, max: nat, rounds: Seq<Seq<HookOutput>>)
    requires
        attempt <= max,
        rounds.len() > max,
        forall|k: int| 0 <= k < rounds.len() ==> !all_passed(passes(#[trigger] rounds[k])),
    ensures
        cycle_from(attempt, max, rounds) == (max + 1, DecisionKind::Exhausted),
        cycle_reports(attempt, max, rounds) == reports_between(
            rounds,
            attempt as int,
            max + 1 as int,
        ),
    decreases max - attempt,
{
    assert(!all_passed(passes(rounds[attempt as int])));
    if attempt < max {
        lemma_cycle_fails_from(attempt + 1, max, rounds);
    } else {
        assert(reports_between(rounds, max + 1 as int, max + 1 as int) == Seq::<(Seq<char>, bool)>::empty());
        assert(round_reports(rounds[attempt as int]) + Seq::<(Seq<char>, bool)>::empty()
            =~= round_reports(rounds[attempt as int]));
    }
}

/// With at most `max` fix rounds and a check that fails in every round, the
/// cycle runs exactly `max + 1` rounds and ends exhausted.
pub proof fn law_check_cycle_bound(max: nat, rounds: Seq<Seq<HookOutput>>)
    requires
        rounds.len() > max,
        forall|k: int| 0 <= k < rounds.len() ==> !all_passed(passes(#[trigger] rounds[k])),
    ensures
        cycle_from(0, max, rounds) == (max + 1, DecisionKind::Exhausted),
{
    lemma_cycle_fails_from(0, max, rounds);
}

/// Every round of a cycle reports every check, the failing and the passing
/// alike: where each round has a failing check, the cycle's reports are
/// those of rounds `0..=max`, each complete and in order.
pub proof fn law_check_cycle_reports_every_check(max: nat, rounds: Seq<Seq<HookOutput>>)
    requires
        rounds.len() > max,
        forall|k: int| 0 <= k < rounds.len() ==> !all_passed(passes(#[trigger] rounds[k])),
    ensures
        cycle_reports(0, max, rounds) == reports_between(rounds, 0, max + 1 as int),
        forall|k: int| 0 <= k < rounds.len() ==> (#[trigger] round_reports(rounds[k])).len() == rounds[k].len(),
{
    lemma_cycle_fails_from(0, max, rounds);
}

} // verus!
