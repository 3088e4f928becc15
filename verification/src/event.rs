//! Application state and the reconciler that folds events from background
//! work into it.

use crate::index::BranchCommitIndex;
use crate::models::PullRequest;
use crate::text::{single_line, to_single_line};
use vstd::prelude::*;

verus! {

/// What a background operation reports back.
#[derive(Debug, Clone)]
pub enum AppEvent {
    /// A fresh listing of the pull requests.
    FetchedPullRequests(Vec<PullRequest>),
    /// The latest commit (second) of a branch (first).
    FetchedBranchCommit(String, String),
    /// Something went wrong; the message may run over several lines.
    Failure(String),
}

/// The state the loop owns.
pub struct AppState {
    /// The pull requests of the latest listing, in its order.
    pub prs: Vec<PullRequest>,
    /// Latest known commit per branch.
    pub branches: BranchCommitIndex,
    /// The latest failure, on one line. It stays until another replaces it.
    pub error_message: Option<String>,
    /// Set once the user has asked to quit.
    pub done: bool,
}

/// The state as plain mathematical values.
#[verifier::ext_equal]
pub struct AppStateView {
    pub prs: Seq<PullRequest>,
    pub branches: Map<Seq<char>, Seq<char>>,
    pub error_message: Option<Seq<char>>,
    pub done: bool,
}

impl View for AppState {
    type V = AppStateView;

    open spec fn view(&self) -> AppStateView {
        AppStateView {
            prs: self.prs@,
            branches: self.branches@,
            error_message: match self.error_message {
                Some(msg) => Some(msg@),
                None => None,
            },
            done: self.done,
        }
    }
}

/// The state before anything has happened.
pub open spec fn initial_state() -> AppStateView {
    AppStateView {
        prs: Seq::empty(),
        branches: Map::empty(),
        error_message: None,
        done: false,
    }
}

/// The state transition: a listing replaces the whole list, a branch commit
/// overwrites one index entry, a failure overwrites the message, flattened
/// to one line. Nothing else changes.
pub open spec fn reconcile(state: AppStateView, event: AppEvent) -> AppStateView {
    match event {
        AppEvent::FetchedPullRequests(list) => AppStateView { prs: list@, ..state },
        AppEvent::FetchedBranchCommit(branch, commit) => AppStateView {
            branches: state.branches.insert(branch@, commit@),
            ..state
        },
        AppEvent::Failure(message) => AppStateView {
            error_message: Some(single_line(message@)),
            ..state
        },
    }
}

impl AppState {
    /// Empty list, empty index, no error, not terminated.
    pub fn new() -> (state: AppState)
        ensures
            state@ == initial_state(),
    {
        AppState {
            prs: Vec::new(),
            branches: BranchCommitIndex::new(),
            error_message: None,
            done: false,
        }
    }

    /// Applies one event. The event is consumed and raises no further event.
    pub fn apply(&mut self, event: AppEvent)
        ensures
            final(self)@ == reconcile(old(self)@, event),
            final(self).done == old(self).done,
            old(self)@.branches.dom().subset_of(final(self)@.branches.dom()),
    {
        match event {
            AppEvent::FetchedPullRequests(list) => {
                self.prs = list;
            },
            AppEvent::FetchedBranchCommit(branch, commit) => {
                self.branches.record(branch, commit);
            },
            AppEvent::Failure(message) => {
                self.error_message = Some(to_single_line(message.as_str()));
            },
        }
    }
}

impl Default for AppState {
    fn default() -> (state: AppState)
        ensures
            state@ == initial_state(),
    {
        AppState::new()
    }
}

/// Applying the same branch commit twice leaves the state that applying it
/// once leaves.
pub proof fn lemma_branch_commit_is_idempotent(state: AppStateView, branch: String, commit: String)
    ensures
        reconcile(
            reconcile(state, AppEvent::FetchedBranchCommit(branch, commit)),
            AppEvent::FetchedBranchCommit(branch, commit),
        ) == reconcile(state, AppEvent::FetchedBranchCommit(branch, commit)),
{
    let once = reconcile(state, AppEvent::FetchedBranchCommit(branch, commit));
    let twice = reconcile(once, AppEvent::FetchedBranchCommit(branch, commit));
    assert(twice.branches =~= once.branches);
}

/// Of two listings applied one after the other, the state holds exactly the
/// second: the lists are not merged, and the rest of the state is what it
/// was.
pub proof fn lemma_last_listing_wins(
    state: AppStateView,
    first: Vec<PullRequest>,
    second: Vec<PullRequest>,
)
    ensures
        reconcile(
            reconcile(state, AppEvent::FetchedPullRequests(first)),
            AppEvent::FetchedPullRequests(second),
        ).prs == second@,
        reconcile(
            reconcile(state, AppEvent::FetchedPullRequests(first)),
            AppEvent::FetchedPullRequests(second),
        ) == reconcile(state, AppEvent::FetchedPullRequests(second)),
{
}

/// Of two failures applied one after the other, only the second is visible.
pub proof fn lemma_last_failure_wins(state: AppStateView, first: String, second: String)
    ensures
        reconcile(reconcile(state, AppEvent::Failure(first)), AppEvent::Failure(second))
            == reconcile(state, AppEvent::Failure(second)),
{
}

/// No event removes a branch from the index, sets or clears the termination
/// flag, or clears the error message.
pub proof fn lemma_events_only_add(state: AppStateView, event: AppEvent)
    ensures
        state.branches.dom().subset_of(reconcile(state, event).branches.dom()),
        reconcile(state, event).done == state.done,
        state.error_message is Some ==> reconcile(state, event).error_message is Some,
{
}

} // verus!
