use gba_core::config::{Hook, HooksConfig};
use gba_core::cycles::{ReviewCycle, ReviewStep, VerificationCycle, VerifyStep};
use gba_core::events::{EventKind, RunEvent};
use gba_core::git::CommitOutcome;
use gba_core::hooks::{check_decision, check_events, CheckDecision, HookOutput, HookRunner};
use gba_core::plan::{
    collect_completed_phases, completed_phases_before, set_phase_result, FeatureSpec, Phase, PhaseResult, ReviewResult,
    StepStatus, VerificationPlan, VerificationResult,
};
use gba_core::run::{task_template, Action, Outcome, Run, RunConfig, Stage};

fn test_hooks_config(hooks: Vec<Hook>) -> HooksConfig {
    HooksConfig { pre_commit: hooks, max_retries: 3 }
}

#[test]
fn test_should_create_hook_runner() {
    let config = test_hooks_config(vec![Hook { name: "build".to_owned(), command: "echo build".to_owned() }]);

    let runner = HookRunner::new(&config);
    assert!(runner.has_hooks());
    assert_eq!(runner.max_retries(), 3);
}

#[test]
fn test_should_report_no_hooks_when_empty() {
    let config = test_hooks_config(vec![]);
    let runner = HookRunner::new(&config);
    assert!(!runner.has_hooks());
}

#[test]
fn test_should_default_step_status_to_pending() {
    let status = StepStatus::default();
    assert_eq!(status, StepStatus::Pending);
}

fn phase(name: &str, result: Option<PhaseResult>) -> Phase {
    Phase { name: name.to_owned(), description: format!("{name} description"), tasks: vec!["Task".to_owned()], result }
}

fn completed(turns: u32, commit: Option<&str>) -> Option<PhaseResult> {
    Some(PhaseResult { status: StepStatus::Completed, turns, commit: commit.map(|c| c.to_owned()) })
}

fn plan(phases: Vec<Phase>, criteria: Vec<String>) -> FeatureSpec {
    FeatureSpec {
        feature: "Test feature".to_owned(),
        phases,
        verification: VerificationPlan { criteria, test_commands: vec![] },
        execution: None,
    }
}

#[test]
fn test_should_identify_completed_phases() {
    let spec = plan(
        vec![
            phase("Phase 1", completed(5, Some("abc123"))),
            phase("Phase 2", None),
            phase("Phase 3", Some(PhaseResult { status: StepStatus::Failed, turns: 2, commit: None })),
        ],
        vec!["Tests pass".to_owned()],
    );

    let completed = collect_completed_phases(&spec);
    assert_eq!(completed.len(), 1);
    assert_eq!(completed[0].name, "Phase 1");
    assert_eq!(completed[0].commit, "abc123");
    assert_eq!(completed[0].index, 1);
}

#[test]
fn test_should_identify_no_completed_phases() {
    let spec = plan(vec![phase("Phase 1", None)], vec![]);
    let completed = collect_completed_phases(&spec);
    assert!(completed.is_empty());
}

#[test]
fn completed_phase_without_commit_reads_unknown() {
    let spec = plan(vec![phase("A", None), phase("B", completed(1, None))], vec![]);
    let c = collect_completed_phases(&spec);
    assert_eq!(c.len(), 1);
    assert_eq!(c[0].index, 2);
    assert_eq!(c[0].commit, "unknown");
}

#[test]
fn completed_phases_before_counts_only_earlier_phases() {
    let spec = plan(vec![phase("A", completed(1, Some("h"))), phase("B", None), phase("C", completed(2, None))], vec![]);
    let before = completed_phases_before(&spec, 1);
    assert_eq!(before.len(), 1);
    assert_eq!(before[0].name, "A");
    assert!(completed_phases_before(&spec, 0).is_empty());
    assert_eq!(completed_phases_before(&spec, 3).len(), 2);
}

#[test]
fn set_phase_result_changes_one_phase() {
    let mut spec = plan(vec![phase("A", None), phase("B", None)], vec![]);
    set_phase_result(&mut spec, 1, PhaseResult { status: StepStatus::Failed, turns: 0, commit: None });
    assert!(spec.phases[0].result.is_none());
    assert_eq!(spec.phases[1].result.as_ref().unwrap().status, StepStatus::Failed);
}

fn outputs(results: &[(&str, bool)]) -> Vec<HookOutput> {
    results
        .iter()
        .map(|(n, p)| HookOutput {
            name: (*n).to_owned(),
            command: format!("run {n}"),
            passed: *p,
            stdout: String::new(),
            stderr: String::new(),
        })
        .collect()
}

#[test]
fn check_cycle_bound_with_always_failing_check() {
    let max_retries = 2;
    let mut rounds = 0;
    let mut attempt = 0;
    let result = loop {
        let results = outputs(&[("always", false)]);
        rounds += 1;
        match check_decision(attempt, max_retries, &results) {
            CheckDecision::Passed => break None,
            CheckDecision::Exhausted(names) => break Some(names),
            CheckDecision::Fix(idx) => assert_eq!(idx, vec![0]),
        }
        attempt += 1;
    };
    assert_eq!(rounds, 3);
    assert_eq!(result, Some(vec!["always".to_owned()]));
}

#[test]
fn check_cycle_reports_every_check_each_attempt() {
    let results = outputs(&[("A", false), ("B", true)]);
    for attempt in 0..=2 {
        let events = check_events(&results);
        assert_eq!(
            events,
            vec![
                RunEvent::CheckResult { name: "A".to_owned(), passed: false },
                RunEvent::CheckResult { name: "B".to_owned(), passed: true },
            ]
        );
        let d = check_decision(attempt, 2, &results);
        if attempt < 2 {
            assert_eq!(d, CheckDecision::Fix(vec![0]));
        } else {
            assert_eq!(d, CheckDecision::Exhausted(vec!["A".to_owned()]));
        }
    }
    assert_eq!(check_decision(0, 2, &outputs(&[("A", true), ("B", true)])), CheckDecision::Passed);
}

fn no_steps() -> RunConfig {
    RunConfig { auto_commit: false, checks: false, review: false, verification: false }
}

#[test]
fn resume_skips_completed_phase() {
    let spec = plan(vec![phase("one", completed(4, Some("c1"))), phase("two", None)], vec![]);
    let (run, out) = Run::new(spec, no_steps());
    assert_eq!(
        out.events,
        vec![
            RunEvent::Started { feature: "Test feature".to_owned(), total_phases: 2 },
            RunEvent::PhaseStarted { index: 1, name: "two".to_owned() },
        ]
    );
    assert_eq!(out.action, Action::RunPhase { index: 1, resume: true });
    assert_eq!(run.stage, Stage::Phase(1));
    assert_eq!(task_template(true), "code/resume");
    assert_eq!(task_template(false), "code/task");
}

#[test]
fn end_to_end_two_phases_all_steps_off() {
    let spec = plan(vec![phase("one", None), phase("two", None)], vec!["crit".to_owned()]);
    let (mut run, first) = Run::new(spec, no_steps());
    let mut kinds: Vec<EventKind> = first.events.iter().map(|e| e.kind()).collect();
    let mut action = first.action;
    let mut turns = vec![3u32, 4u32].into_iter();
    let mut saves = 0;
    while action != Action::Stop {
        let outcome = match action {
            Action::RunPhase { .. } => Outcome::Coded { turns: turns.next().unwrap() },
            Action::CreatePr => Outcome::PrCreated("https://github.com/o/r/pull/1".to_owned()),
            other => panic!("unexpected action {:?}", other),
        };
        let out = run.step(outcome);
        if out.save {
            saves += 1;
        }
        kinds.extend(out.events.iter().map(|e| e.kind()));
        action = out.action;
    }
    assert_eq!(
        kinds,
        vec![
            EventKind::Started { total_phases: 2 },
            EventKind::PhaseStarted { index: 0 },
            EventKind::PhaseCommitted { index: 0 },
            EventKind::PhaseStarted { index: 1 },
            EventKind::PhaseCommitted { index: 1 },
            EventKind::ChangeRequestCreated,
            EventKind::Finished,
        ]
    );
    assert_eq!(saves, 3);
    let exec = run.plan.execution.as_ref().unwrap();
    assert_eq!(exec.total_turns, 7);
    assert_eq!(exec.status, StepStatus::Completed);
    assert!(exec.verification.passed);
    assert_eq!(exec.pr.as_deref(), Some("https://github.com/o/r/pull/1"));
    assert_eq!(run.plan.phases[0].result, completed(3, None));
    assert_eq!(run.plan.phases[1].result, completed(4, None));
}

#[test]
fn empty_plan_goes_straight_to_review() {
    let config = RunConfig { auto_commit: true, checks: true, review: true, verification: true };
    let (run, out) = Run::new(plan(vec![], vec![]), config);
    assert_eq!(out.action, Action::RunReview);
    assert_eq!(run.stage, Stage::Review);
    assert_eq!(out.events.last(), Some(&RunEvent::ReviewStarted));
}

#[test]
fn coder_failure_marks_phase_failed_and_aborts() {
    let config = RunConfig { auto_commit: true, checks: true, review: true, verification: true };
    let (mut run, _) = Run::new(plan(vec![phase("one", None)], vec![]), config);
    let out = run.step(Outcome::CoderFailed("network down".to_owned()));
    assert!(out.save);
    assert_eq!(out.action, Action::Stop);
    assert_eq!(out.events, vec![RunEvent::Error { detail: "network down".to_owned() }]);
    assert_eq!(run.plan.phases[0].result, Some(PhaseResult { status: StepStatus::Failed, turns: 0, commit: None }));
    assert_eq!(run.stage, Stage::Aborted);
}

#[test]
fn checks_commit_review_verification_sequence() {
    let config = RunConfig { auto_commit: true, checks: true, review: true, verification: true };
    let (mut run, _) = Run::new(plan(vec![phase("one", None)], vec!["crit".to_owned()]), config);
    assert_eq!(run.step(Outcome::Coded { turns: 2 }).action, Action::RunChecks { index: 0 });
    assert_eq!(run.step(Outcome::ChecksPassed).action, Action::Commit { index: 0 });
    let out = run.step(Outcome::Committed(CommitOutcome::NoChanges));
    assert_eq!(out.action, Action::RunReview);
    assert!(out.save);
    assert_eq!(out.events[0], RunEvent::PhaseCommitted { index: 0, commit: None });
    let out = run.step(Outcome::Reviewed(ReviewResult { turns: 5, issues_found: 2, issues_fixed: 2 }));
    assert_eq!(out.action, Action::RunVerification);
    assert_eq!(out.events, vec![RunEvent::ReviewCompleted { issue_count: 2 }, RunEvent::VerificationStarted]);
    let out = run.step(Outcome::VerificationFailed("agent down".to_owned()));
    assert_eq!(out.action, Action::CreatePr);
    assert_eq!(out.events, vec![RunEvent::VerificationCompleted { passed: false, details: "some criteria failed".to_owned() }]);
    let out = run.step(Outcome::PrFailed("no url".to_owned()));
    assert_eq!(out.action, Action::Stop);
    assert_eq!(out.events, vec![RunEvent::Error { detail: "no url".to_owned() }, RunEvent::Finished]);
    let exec = run.plan.execution.unwrap();
    assert_eq!(exec.total_turns, 7);
    assert!(!exec.verification.passed);
    assert!(exec.pr.is_none());
}

#[test]
fn commit_failure_aborts_and_verification_skipped_without_content() {
    let config = RunConfig { auto_commit: true, checks: false, review: false, verification: true };
    let (mut run, _) = Run::new(plan(vec![phase("one", None)], vec![]), config);
    run.step(Outcome::Coded { turns: 1 });
    let out = run.step(Outcome::Committed(CommitOutcome::Failed("locked".to_owned())));
    assert_eq!(out.events, vec![RunEvent::Error { detail: "locked".to_owned() }]);
    assert_eq!(run.stage, Stage::Aborted);

    let (mut run2, _) = Run::new(plan(vec![phase("one", None)], vec![]), config);
    run2.step(Outcome::Coded { turns: 1 });
    let out = run2.step(Outcome::Committed(CommitOutcome::Committed("h1".to_owned())));
    assert_eq!(out.action, Action::CreatePr);
    assert_eq!(out.events, vec![RunEvent::PhaseCommitted { index: 0, commit: Some("h1".to_owned()) }]);
}

#[test]
fn failed_check_cycle_records_phase_failed() {
    let config = RunConfig { auto_commit: true, checks: true, review: false, verification: false };
    let (mut run, _) = Run::new(plan(vec![phase("one", completed(2, Some("c"))), phase("two", None)], vec![]), config);
    run.step(Outcome::Coded { turns: 4 });
    let out = run.step(Outcome::ChecksFailed("lint".to_owned()));
    assert!(out.save);
    assert_eq!(out.events, vec![RunEvent::Error { detail: "lint".to_owned() }]);
    assert_eq!(run.plan.phases[1].result, Some(PhaseResult { status: StepStatus::Failed, turns: 0, commit: None }));
    assert_eq!(run.plan.phases[0].result, completed(2, Some("c")));
    assert_eq!(run.plan.verification.criteria, Vec::<String>::new());
}

#[test]
fn mismatched_outcome_changes_nothing() {
    let (mut run, _) = Run::new(plan(vec![phase("one", None)], vec![]), no_steps());
    let out = run.step(Outcome::ChecksPassed);
    assert!(out.events.is_empty());
    assert_eq!(out.action, Action::RunPhase { index: 0, resume: false });
}

#[test]
fn review_cycle_runs_until_clean() {
    let mut c = ReviewCycle::new(3, true);
    assert_eq!(c.next_round(), ReviewStep::Diff);
    assert_eq!(c.after_diff(false), ReviewStep::Review);
    assert_eq!(c.after_review(2, 3), ReviewStep::Fix);
    assert_eq!(c.after_fix(4), ReviewStep::Commit);
    assert_eq!(c.after_commit(CommitOutcome::NoChanges), ReviewStep::Diff);
    assert_eq!(c.after_diff(false), ReviewStep::Review);
    assert_eq!(
        c.after_review(1, 0),
        ReviewStep::Done(ReviewResult { turns: 7, issues_found: 3, issues_fixed: 3 })
    );
}

#[test]
fn review_cycle_stops_on_empty_diff_and_exhaustion() {
    let mut c = ReviewCycle::new(1, false);
    assert_eq!(c.next_round(), ReviewStep::Diff);
    assert_eq!(c.after_diff(false), ReviewStep::Review);
    assert_eq!(c.after_review(1, 1), ReviewStep::Fix);
    assert_eq!(
        c.after_fix(1),
        ReviewStep::Done(ReviewResult { turns: 2, issues_found: 1, issues_fixed: 1 })
    );
    let mut d = ReviewCycle::new(2, true);
    d.next_round();
    assert_eq!(d.after_diff(true), ReviewStep::Done(ReviewResult { turns: 0, issues_found: 0, issues_fixed: 0 }));
    let mut e = ReviewCycle::new(0, true);
    assert_eq!(e.next_round(), ReviewStep::Done(ReviewResult { turns: 0, issues_found: 0, issues_fixed: 0 }));
    let mut f = ReviewCycle::new(2, true);
    f.next_round();
    f.after_diff(false);
    f.after_review(1, 1);
    f.after_fix(1);
    assert_eq!(f.after_commit(CommitOutcome::Failed("x".to_owned())), ReviewStep::Failed("x".to_owned()));
}

#[test]
fn verification_cycle_fails_after_last_round() {
    let mut c = VerificationCycle::new(2, true);
    assert_eq!(c.next_round(), VerifyStep::Verify);
    assert_eq!(c.after_verify(3, false), VerifyStep::Fix);
    assert_eq!(c.after_fix(1), VerifyStep::Commit);
    assert_eq!(c.after_commit(CommitOutcome::Committed("h".to_owned())), VerifyStep::Verify);
    assert_eq!(c.after_verify(2, false), VerifyStep::Done(VerificationResult { turns: 6, passed: false }));
    let mut d = VerificationCycle::new(3, false);
    d.next_round();
    assert_eq!(d.after_verify(5, true), VerifyStep::Done(VerificationResult { turns: 5, passed: true }));
    let mut e = VerificationCycle::new(0, false);
    assert_eq!(e.next_round(), VerifyStep::Done(VerificationResult { turns: 0, passed: false }));
    let mut f = VerificationCycle::new(1, true);
    f.next_round();
    assert_eq!(f.after_verify(u32::MAX, false), VerifyStep::Done(VerificationResult { turns: u32::MAX, passed: false }));
}
