//! Synchronisation status: what a pull request's raw verdict and the state of
//! its base branch say together. It is computed whenever it is read and never
//! stored.

use crate::index::BranchCommitIndex;
use crate::models::{Mergeable, PullRequest};
use vstd::prelude::*;

verus! {

/// How the base commit a pull request was last synced against compares with
/// the latest known commit of its base branch.
#[derive(Debug, Clone, Copy, PartialEq, Eq, Structural)]
pub enum BaseMatch {
    /// The base branch is known and its latest commit is the recorded one.
    Same,
    /// The base branch is known and has moved on.
    Differs,
    /// Nothing is known about the base branch.
    Missing,
}

/// The displayed mergeability of a pull request.
#[derive(Debug, Clone, Copy, PartialEq, Eq, Structural)]
pub enum SyncStatus {
    UpToDate,
    Behind,
    Unsynced,
    Conflict,
    Unknown,
}

/// Compares a recorded base commit with the index entry of the base branch.
pub open spec fn base_match(
    index: Map<Seq<char>, Seq<char>>,
    base_name: Seq<char>,
    base_commit: Seq<char>,
) -> BaseMatch {
    if !index.contains_key(base_name) {
        BaseMatch::Missing
    } else if index[base_name] == base_commit {
        BaseMatch::Same
    } else {
        BaseMatch::Differs
    }
}

/// The status table: a conflict always wins, an unknown verdict stays
/// unknown, and a clean verdict is graded by the base branch.
pub open spec fn derive_status(verdict: Mergeable, base: BaseMatch) -> SyncStatus {
    match verdict {
        Mergeable::Conflict => SyncStatus::Conflict,
        Mergeable::Unknown => SyncStatus::Unknown,
        Mergeable::Okay => match base {
            BaseMatch::Same => SyncStatus::UpToDate,
            BaseMatch::Differs => SyncStatus::Behind,
            BaseMatch::Missing => SyncStatus::Unsynced,
        },
    }
}

/// The status of `pr` against the index `index`.
pub open spec fn status_of(index: Map<Seq<char>, Seq<char>>, pr: PullRequest) -> SyncStatus {
    derive_status(pr.mergeable, base_match(index, pr.base_name@, pr.base_commit@))
}

/// Computes the status table for one verdict and one comparison.
pub fn combine(verdict: Mergeable, base: BaseMatch) -> (status: SyncStatus)
    ensures
        status == derive_status(verdict, base),
{
    match verdict {
        Mergeable::Conflict => SyncStatus::Conflict,
        Mergeable::Unknown => SyncStatus::Unknown,
        Mergeable::Okay => match base {
            BaseMatch::Same => SyncStatus::UpToDate,
            BaseMatch::Differs => SyncStatus::Behind,
            BaseMatch::Missing => SyncStatus::Unsynced,
        },
    }
}

/// Looks the base branch of `pr` up in `index` and compares commits.
pub fn compare_base(index: &BranchCommitIndex, pr: &PullRequest) -> (base: BaseMatch)
    ensures
        base == base_match(index@, pr.base_name@, pr.base_commit@),
{
    match index.latest(pr.base_name.as_str()) {
        None => BaseMatch::Missing,
        Some(commit) => if pr.base_commit == *commit {
            BaseMatch::Same
        } else {
            BaseMatch::Differs
        },
    }
}

/// The synchronisation status of `pr`, recomputed from the raw verdict and
/// the index on every call.
pub fn sync_status(index: &BranchCommitIndex, pr: &PullRequest) -> (status: SyncStatus)
    ensures
        status == status_of(index@, *pr),
        pr.mergeable == Mergeable::Conflict ==> status == SyncStatus::Conflict,
        !index@.contains_key(pr.base_name@) ==> status != SyncStatus::UpToDate && status
            != SyncStatus::Behind,
{
    combine(pr.mergeable, compare_base(index, pr))
}

impl SyncStatus {
    /// The words shown for this status.
    pub open spec fn label_text(self) -> Seq<char> {
        match self {
            SyncStatus::UpToDate => "Up to date"@,
            SyncStatus::Behind => "Behind"@,
            SyncStatus::Unsynced => "Unsynced"@,
            SyncStatus::Conflict => "Conflict"@,
            SyncStatus::Unknown => "Unknown"@,
        }
    }

    pub fn label(&self) -> (words: &'static str)
        ensures
            words@ == self.label_text(),
    {
        match self {
            SyncStatus::UpToDate => "Up to date",
            SyncStatus::Behind => "Behind",
            SyncStatus::Unsynced => "Unsynced",
            SyncStatus::Conflict => "Conflict",
            SyncStatus::Unknown => "Unknown",
        }
    }
}

/// A conflicting verdict shows as a conflict whatever the index holds.
pub proof fn lemma_conflict_always_wins(index: Map<Seq<char>, Seq<char>>, pr: PullRequest)
    requires
        pr.mergeable == Mergeable::Conflict,
    ensures
        status_of(index, pr) == SyncStatus::Conflict,
{
}

/// While the base branch is absent from the index, the status is decided by
/// the raw verdict alone and is never up to date or behind.
pub proof fn lemma_unknown_base_is_never_graded(index: Map<Seq<char>, Seq<char>>, pr: PullRequest)
    requires
        !index.contains_key(pr.base_name@),
    ensures
        status_of(index, pr) == match pr.mergeable {
            Mergeable::Okay => SyncStatus::Unsynced,
            Mergeable::Conflict => SyncStatus::Conflict,
            Mergeable::Unknown => SyncStatus::Unknown,
        },
        status_of(index, pr) != SyncStatus::UpToDate,
        status_of(index, pr) != SyncStatus::Behind,
{
}

/// The status depends on nothing but the raw verdict, the recorded base
/// commit and the index entry of the base branch.
pub proof fn lemma_status_is_a_function_of_its_inputs(
    index_a: Map<Seq<char>, Seq<char>>,
    pr_a: PullRequest,
    index_b: Map<Seq<char>, Seq<char>>,
    pr_b: PullRequest,
)
    requires
        pr_a.mergeable == pr_b.mergeable,
        base_match(index_a, pr_a.base_name@, pr_a.base_commit@) == base_match(
            index_b,
            pr_b.base_name@,
            pr_b.base_commit@,
        ),
    ensures
        status_of(index_a, pr_a) == status_of(index_b, pr_b),
{
}

} // verus!
