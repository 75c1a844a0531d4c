//! The review cycle and the verification cycle, as machines: the caller
//! performs each step they ask for and reports back what happened.
use vstd::prelude::*;

use crate::git::CommitOutcome;
use crate::plan::{ReviewResult, VerificationResult};

verus! {

/// `a + b`, held at `u32::MAX`.
pub open spec fn sat_add(a: u32, b: u32) -> u32 {
    if a + b > u32::MAX {
        u32::MAX
    } else {
        (a + b) as u32
    }
}

pub fn saturating_add(a: u32, b: u32) -> (r: u32)
    ensures
        r == sat_add(a, b),
{
    a.saturating_add(b)
}

/// What the review cycle asks for next.
#[derive(Clone, Debug, PartialEq, Eq)]
pub enum ReviewStep {
    /// Compute the diff of the worktree against the base branch.
    Diff,
    /// Ask the review collaborator about the diff.
    Review,
    /// Ask for fixes to the issues found.
    Fix,
    /// Commit the fixes.
    Commit,
    /// The cycle is over; its totals.
    Done(ReviewResult),
    /// A commit failed; the run aborts.
    Failed(String),
}

/// Review rounds: diff, review, fix, commit, until the diff is empty, the
/// review collaborator finds nothing, or the rounds run out.
#[derive(Clone, Copy, Debug, PartialEq, Eq, Structural)]
pub struct ReviewCycle {
    pub max_iterations: u32,
    pub auto_commit: bool,
    /// Rounds begun so far.
    pub iteration: u32,
    pub totals: ReviewResult,
    /// Issues of the current round.
    pub pending_issues: u32,
}

impl ReviewCycle {
    pub fn new(max_iterations: u32, auto_commit: bool) -> (r: Self)
        ensures
            r.max_iterations == max_iterations,
            r.auto_commit == auto_commit,
            r.iteration == 0,
            r.totals == (ReviewResult { turns: 0, issues_found: 0, issues_fixed: 0 }),
            r.pending_issues == 0,
    {
        ReviewCycle {
            max_iterations,
            auto_commit,
            iteration: 0,
            totals: ReviewResult { turns: 0, issues_found: 0, issues_fixed: 0 },
            pending_issues: 0,
        }
    }

    /// Begins the next round, or ends the cycle where the rounds ran out.
    pub fn next_round(&mut self) -> (r: ReviewStep)
        ensures
            old(self).iteration < old(self).max_iterations ==> r == ReviewStep::Diff && *final(self) == (ReviewCycle { iteration: (old(self).iteration + 1) as u32, ..*old(self) }),
            old(self).iteration >= old(self).max_iterations ==> r == ReviewStep::Done(
                old(self).totals,
            ) && *final(self) == *old(self),
    {
        if self.iteration < self.max_iterations {
            self.iteration = self.iteration + 1;
            ReviewStep::Diff
        } else {
            ReviewStep::Done(self.totals)
        }
    }

    /// After the diff: nothing to review ends the cycle.
    pub fn after_diff(&mut self, diff_is_empty: bool) -> (r: ReviewStep)
        ensures
            *final(self) == *old(self),
            r == if diff_is_empty {
                ReviewStep::Done(old(self).totals)
            } else {
                ReviewStep::Review
            },
    {
        if diff_is_empty {
            ReviewStep::Done(self.totals)
        } else {
            ReviewStep::Review
        }
    }

    /// After the review: no issues end the cycle; otherwise they are counted
    /// and fixed.
    pub fn after_review(&mut self, turns: u32, issue_count: u32) -> (r: ReviewStep)
        ensures
            final(self).totals.turns == sat_add(old(self).totals.turns, turns),
            issue_count == 0 ==> final(self).totals.issues_found == old(self).totals.issues_found
                && r == ReviewStep::Done(final(self).totals),
            issue_count > 0 ==> final(self).totals.issues_found == sat_add(
                old(self).totals.issues_found,
                issue_count,
            ) && r == ReviewStep::Fix && final(self).pending_issues == issue_count,
            final(self).totals.issues_fixed == old(self).totals.issues_fixed,
            final(self).iteration == old(self).iteration,
            final(self).max_iterations == old(self).max_iterations,
            final(self).auto_commit == old(self).auto_commit,
    {
        self.totals.turns = saturating_add(self.totals.turns, turns);
        if issue_count == 0 {
            ReviewStep::Done(self.totals)
        } else {
            self.totals.issues_found = saturating_add(self.totals.issues_found, issue_count);
            self.pending_issues = issue_count;
            ReviewStep::Fix
        }
    }

    /// After the fixes: they count as fixed; commit them where commits are
    /// automatic, else begin the next round.
    pub fn after_fix(&mut self, turns: u32) -> (r: ReviewStep)
        ensures
            final(self).totals.turns == sat_add(old(self).totals.turns, turns),
            final(self).totals.issues_fixed == sat_add(
                old(self).totals.issues_fixed,
                old(self).pending_issues,
            ),
            final(self).totals.issues_found == old(self).totals.issues_found,
            final(self).max_iterations == old(self).max_iterations,
            final(self).auto_commit == old(self).auto_commit,
            final(self).pending_issues == 0,
            old(self).auto_commit ==> r == ReviewStep::Commit && final(self).iteration == old(self).iteration,
            !old(self).auto_commit ==> (if old(self).iteration < old(self).max_iterations {
                r == ReviewStep::Diff && final(self).iteration == old(self).iteration + 1
            } else {
                r == ReviewStep::Done(final(self).totals) && final(self).iteration == old(self).iteration
            }),
    {
        self.totals.turns = saturating_add(self.totals.turns, turns);
        self.totals.issues_fixed = saturating_add(self.totals.issues_fixed, self.pending_issues);
        self.pending_issues = 0;
        if self.auto_commit {
            ReviewStep::Commit
        } else {
            self.next_round()
        }
    }

    /// After a commit: a commit or nothing to commit goes on; any other
    /// failure ends the cycle in failure.
    pub fn after_commit(&mut self, outcome: CommitOutcome) -> (r: ReviewStep)
        ensures
            final(self).totals == old(self).totals,
            final(self).max_iterations == old(self).max_iterations,
            match outcome {
                CommitOutcome::Failed(m) => r == ReviewStep::Failed(m) && final(self).iteration
                    == old(self).iteration,
                _ => if old(self).iteration < old(self).max_iterations {
                    r == ReviewStep::Diff && final(self).iteration == old(self).iteration + 1
                } else {
                    r == ReviewStep::Done(old(self).totals) && final(self).iteration == old(self).iteration
                },
            },
    {
        match outcome {
            CommitOutcome::Failed(m) => ReviewStep::Failed(m),
            _ => self.next_round(),
        }
    }
}

/// What the verification cycle asks for next.
#[derive(Clone, Debug, PartialEq, Eq)]
pub enum VerifyStep {
    /// Ask the verifier to check the criteria and run the test commands.
    Verify,
    /// Ask for fixes, given the verifier's transcript.
    Fix,
    /// Commit the fixes.
    Commit,
    /// The cycle is over; its result.
    Done(VerificationResult),
    /// A commit failed.
    Failed(String),
}

/// Verification rounds: verify, and while it fails and rounds remain, fix
/// and commit.
#[derive(Clone, Copy, Debug, PartialEq, Eq, Structural)]
pub struct VerificationCycle {
    pub max_iterations: u32,
    pub auto_commit: bool,
    /// Rounds begun so far.
    pub iteration: u32,
    pub turns: u32,
}

impl VerificationCycle {
    pub fn new(max_iterations: u32, auto_commit: bool) -> (r: Self)
        ensures
            r == (VerificationCycle { max_iterations, auto_commit, iteration: 0, turns: 0 }),
    {
        VerificationCycle { max_iterations, auto_commit, iteration: 0, turns: 0 }
    }

    /// Begins the next round, or ends the cycle failed where none remain.
    pub fn next_round(&mut self) -> (r: VerifyStep)
        ensures
            old(self).iteration < old(self).max_iterations ==> r == VerifyStep::Verify && *final(self) == (VerificationCycle { iteration: (old(self).iteration + 1) as u32, ..*old(self) }),
            old(self).iteration >= old(self).max_iterations ==> r == VerifyStep::Done(
                VerificationResult { turns: old(self).turns, passed: false },
            ) && *final(self) == *old(self),
    {
        if self.iteration < self.max_iterations {
            self.iteration = self.iteration + 1;
            VerifyStep::Verify
        } else {
            VerifyStep::Done(VerificationResult { turns: self.turns, passed: false })
        }
    }

    /// After a verification round: a pass ends the cycle; a failure in the
    /// last round ends it failed; otherwise the failures are fixed.
    pub fn after_verify(&mut self, turns: u32, passed: bool) -> (r: VerifyStep)
        ensures
            final(self).turns == sat_add(old(self).turns, turns),
            final(self).iteration == old(self).iteration,
            final(self).max_iterations == old(self).max_iterations,
            final(self).auto_commit == old(self).auto_commit,
            r == if passed {
                VerifyStep::Done(VerificationResult { turns: final(self).turns, passed: true })
            } else if old(self).iteration >= old(self).max_iterations {
                VerifyStep::Done(VerificationResult { turns: final(self).turns, passed: false })
            } else {
                VerifyStep::Fix
            },
    {
        self.turns = saturating_add(self.turns, turns);
        if passed {
            VerifyStep::Done(VerificationResult { turns: self.turns, passed: true })
        } else if self.iteration >= self.max_iterations {
            VerifyStep::Done(VerificationResult { turns: self.turns, passed: false })
        } else {
            VerifyStep::Fix
        }
    }

    /// After the fixes: commit them where commits are automatic, else begin
    /// the next round.
    pub fn after_fix(&mut self, turns: u32) -> (r: VerifyStep)
        ensures
            final(self).turns == sat_add(old(self).turns, turns),
            final(self).max_iterations == old(self).max_iterations,
            final(self).auto_commit == old(self).auto_commit,
            old(self).auto_commit ==> r == VerifyStep::Commit && final(self).iteration == old(self).iteration,
            !old(self).auto_commit ==> (if old(self).iteration < old(self).max_iterations {
                r == VerifyStep::Verify && final(self).iteration == old(self).iteration + 1
            } else {
                r == VerifyStep::Done(VerificationResult { turns: final(self).turns, passed: false })
                    && final(self).iteration == old(self).iteration
            }),
    {
        self.turns = saturating_add(self.turns, turns);
        if self.auto_commit {
            VerifyStep::Commit
        } else {
            self.next_round()
        }
    }

    /// After a commit: a commit or nothing to commit goes on; any other
    /// failure ends the cycle in failure.
    pub fn after_commit(&mut self, outcome: CommitOutcome) -> (r: VerifyStep)
        ensures
            final(self).turns == old(self).turns,
            final(self).max_iterations == old(self).max_iterations,
            match outcome {
                CommitOutcome::Failed(m) => r == VerifyStep::Failed(m) && final(self).iteration
                    == old(self).iteration,
                _ => if old(self).iteration < old(self).max_iterations {
                    r == VerifyStep::Verify && final(self).iteration == old(self).iteration + 1
                } else {
                    r == VerifyStep::Done(VerificationResult { turns: old(self).turns, passed: false })
                        && final(self).iteration == old(self).iteration
                },
            },
    {
        match outcome {
            CommitOutcome::Failed(m) => VerifyStep::Failed(m),
            _ => self.next_round(),
        }
    }
}

} // verus!
