//! Domain model: pull requests, their CI checks, and the small records that
//! the collaborator hands back about branches and repositories.

use vstd::prelude::*;

verus! {

/// The collaborator's own conflict-detection verdict for a pull request,
/// independent of how fresh the base branch is.
#[derive(Debug, Clone, Copy, PartialEq, Eq, Structural)]
pub enum Mergeable {
    Okay,
    Conflict,
    Unknown,
}

/// Outcome reported by one check.
#[derive(Debug, Clone, Copy, PartialEq, Eq, Structural)]
pub enum CheckConclusion {
    Success,
    Failure,
    Skipped,
    Cancelled,
    Unknown,
}

/// How far one check has got.
#[derive(Debug, Clone, Copy, PartialEq, Eq, Structural)]
pub enum CheckStatus {
    Completed,
    InProgress,
    Queued,
}

/// Rollup of all the checks of one pull request.
#[derive(Debug, Clone, Copy, PartialEq, Eq, Structural)]
pub enum CheckProgress {
    Pending,
    Success,
    Failure,
}

/// One CI signal attached to a pull request: either a structured check run or
/// a legacy status context. A status context carries no completion state and
/// counts as always completed.
#[derive(Debug, Clone)]
pub enum CheckData {
    CheckRun { name: String, conclusion: CheckConclusion, status: CheckStatus },
    StatusContext { context: String, state: CheckConclusion, target_url: String },
}

impl CheckData {
    /// The display name, whichever shape the record has.
    pub open spec fn name_text(&self) -> Seq<char> {
        match self {
            CheckData::CheckRun { name, .. } => name@,
            CheckData::StatusContext { context, .. } => context@,
        }
    }

    /// The verdict, whichever shape the record has.
    pub open spec fn spec_verdict(&self) -> CheckConclusion {
        match self {
            CheckData::CheckRun { conclusion, .. } => *conclusion,
            CheckData::StatusContext { state, .. } => *state,
        }
    }

    /// The progress, whichever shape the record has.
    pub open spec fn spec_state(&self) -> CheckStatus {
        match self {
            CheckData::CheckRun { status, .. } => *status,
            CheckData::StatusContext { .. } => CheckStatus::Completed,
        }
    }

    /// A check that has not finished yet.
    pub open spec fn is_pending(&self) -> bool {
        self.spec_state() == CheckStatus::InProgress || self.spec_state() == CheckStatus::Queued
    }

    pub fn name(&self) -> (r: &str)
        ensures
            r@ == self.name_text(),
    {
        match self {
            CheckData::CheckRun { name, .. } => name.as_str(),
            CheckData::StatusContext { context, .. } => context.as_str(),
        }
    }

    #[verifier::when_used_as_spec(spec_verdict)]
    pub fn verdict(&self) -> (r: CheckConclusion)
        ensures
            r == self.spec_verdict(),
    {
        match self {
            CheckData::CheckRun { conclusion, .. } => *conclusion,
            CheckData::StatusContext { state, .. } => *state,
        }
    }

    #[verifier::when_used_as_spec(spec_state)]
    pub fn state(&self) -> (r: CheckStatus)
        ensures
            r == self.spec_state(),
    {
        match self {
            CheckData::CheckRun { status, .. } => *status,
            CheckData::StatusContext { .. } => CheckStatus::Completed,
        }
    }
}

/// Some check in `checks` has failed.
pub open spec fn any_failed(checks: Seq<CheckData>) -> bool {
    exists|i: int| 0 <= i < checks.len() && (#[trigger] checks[i]).verdict() == CheckConclusion::Failure
}

/// Some check in `checks` is still queued or running.
pub open spec fn any_pending(checks: Seq<CheckData>) -> bool {
    exists|i: int| 0 <= i < checks.len() && (#[trigger] checks[i]).is_pending()
}

/// The rollup of a list of checks: a failure anywhere decides; otherwise
/// anything unfinished means pending; otherwise success.
pub open spec fn rollup(checks: Seq<CheckData>) -> CheckProgress {
    if any_failed(checks) {
        CheckProgress::Failure
    } else if any_pending(checks) {
        CheckProgress::Pending
    } else {
        CheckProgress::Success
    }
}

/// The checks of `checks` that succeeded.
pub open spec fn passing(checks: Seq<CheckData>) -> Seq<CheckData> {
    checks.filter(|c: CheckData| c.verdict() == CheckConclusion::Success)
}

/// The checks of `checks` that were not skipped.
pub open spec fn scheduled(checks: Seq<CheckData>) -> Seq<CheckData> {
    checks.filter(|c: CheckData| c.verdict() != CheckConclusion::Skipped)
}

/// A pull request as the collaborator lists it. It is replaced wholesale by
/// every fresh listing and never edited field by field.
#[derive(Debug, Clone)]
pub struct PullRequest {
    pub url: String,
    pub id: i64,
    pub node_id: String,
    pub number: i32,
    pub state: String,
    pub mergeable: Mergeable,
    pub locked: bool,
    pub title: String,
    pub body: Option<String>,
    pub created_at: String,
    pub updated_at: String,
    pub closed_at: Option<String>,
    pub merged_at: Option<String>,
    pub branch: String,
    pub base_name: String,
    pub base_commit: String,
    pub draft: bool,
    pub checks: Vec<CheckData>,
}

impl PullRequest {
    /// Failure if any check failed, else Pending if any is unfinished, else
    /// Success.
    pub fn check_status(&self) -> (r: CheckProgress)
        ensures
            r == rollup(self.checks@),
    {
        let mut pending: bool = false;
        let mut i: usize = 0;
        while i < self.checks.len()
            invariant
                i <= self.checks.len(),
                !any_failed(self.checks@.take(i as int)),
                pending == any_pending(self.checks@.take(i as int)),
            decreases self.checks.len() - i,
        {
            let check = &self.checks[i];
            if check.verdict() == CheckConclusion::Failure {
                return CheckProgress::Failure;
            }
            let unfinished = match check.state() {
                CheckStatus::InProgress | CheckStatus::Queued => true,
                CheckStatus::Completed => false,
            };
            proof {
                let before = self.checks@.take(i as int);
                let after = self.checks@.take(i + 1);
                assert(after[i as int] == self.checks@[i as int]);
                assert forall|j: int| 0 <= j < i implies #[trigger] after[j] == before[j] by {}
                if any_pending(before) {
                    let j = choose|j: int| 0 <= j < before.len() && (#[trigger] before[j]).is_pending();
                    assert(after[j].is_pending());
                }
                if unfinished {
                    assert(after[i as int].is_pending());
                }
                if any_pending(after) && !unfinished {
                    let j = choose|j: int| 0 <= j < after.len() && (#[trigger] after[j]).is_pending();
                    assert(before[j].is_pending());
                }
                if any_failed(after) {
                    let j = choose|j: int|
                        0 <= j < after.len() && (#[trigger] after[j]).verdict()
                            == CheckConclusion::Failure;
                    assert(before[j].verdict() == CheckConclusion::Failure);
                }
            }
            pending = pending || unfinished;
            i += 1;
        }
        proof {
            assert(self.checks@.take(i as int) =~= self.checks@);
        }
        if pending {
            CheckProgress::Pending
        } else {
            CheckProgress::Success
        }
    }

    /// No check has failed.
    pub fn checks_passed(&self) -> (r: bool)
        ensures
            r == !any_failed(self.checks@),
    {
        let mut i: usize = 0;
        while i < self.checks.len()
            invariant
                i <= self.checks.len(),
                forall|j: int| 0 <= j < i ==> (#[trigger] self.checks@[j]).verdict()
                    != CheckConclusion::Failure,
            decreases self.checks.len() - i,
        {
            if self.checks[i].verdict() == CheckConclusion::Failure {
                return false;
            }
            i += 1;
        }
        true
    }

    /// How many checks succeeded.
    pub fn checks_passing(&self) -> (n: usize)
        ensures
            n == passing(self.checks@).len(),
    {
        let mut n: usize = 0;
        let mut i: usize = 0;
        while i < self.checks.len()
            invariant
                i <= self.checks.len(),
                n <= i,
                n == passing(self.checks@.take(i as int)).len(),
            decreases self.checks.len() - i,
        {
            proof {
                self.checks@.lemma_take_succ_push(i as int);
                self.checks@.take(i as int).lemma_filter_len_push(
                    |c: CheckData| c.verdict() == CheckConclusion::Success,
                    self.checks@[i as int],
                );
            }
            if self.checks[i].verdict() == CheckConclusion::Success {
                n += 1;
            }
            i += 1;
        }
        proof {
            assert(self.checks@.take(i as int) =~= self.checks@);
        }
        n
    }

    /// How many checks were not skipped.
    pub fn checks_scheduled(&self) -> (n: usize)
        ensures
            n == scheduled(self.checks@).len(),
    {
        let mut n: usize = 0;
        let mut i: usize = 0;
        while i < self.checks.len()
            invariant
                i <= self.checks.len(),
                n <= i,
                n == scheduled(self.checks@.take(i as int)).len(),
            decreases self.checks.len() - i,
        {
            proof {
                self.checks@.lemma_take_succ_push(i as int);
                self.checks@.take(i as int).lemma_filter_len_push(
                    |c: CheckData| c.verdict() != CheckConclusion::Skipped,
                    self.checks@[i as int],
                );
            }
            if self.checks[i].verdict() != CheckConclusion::Skipped {
                n += 1;
            }
            i += 1;
        }
        proof {
            assert(self.checks@.take(i as int) =~= self.checks@);
        }
        n
    }
}

/// The commit a branch points at.
#[derive(Debug, Clone)]
pub struct Commit {
    pub sha: String,
    pub url: String,
}

/// A branch as the collaborator describes it.
#[derive(Debug, Clone)]
pub struct Branch {
    pub name: String,
    pub commit: Commit,
}

impl Branch {
    /// The hash of the branch's latest commit.
    pub fn head(self) -> (sha: String)
        ensures
            sha == self.commit.sha,
    {
        self.commit.sha
    }
}

/// The account that owns a repository.
#[derive(Debug, Clone)]
pub struct Owner {
    pub login: String,
}

/// A repository as the collaborator describes it.
#[derive(Debug, Clone)]
pub struct Repo {
    pub name: String,
    pub owner: Owner,
}

} // verus!
