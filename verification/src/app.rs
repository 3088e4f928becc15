//! The scheduler's decisions: one step of the loop takes the application and
//! whatever woke the loop, updates the application, and says what background
//! work or painting is wanted. Waiting, spawning and painting are left to the
//! caller.

use crate::event::{initial_state, reconcile, AppEvent, AppState, AppStateView};
use crate::input::{command_for, command_of, Command, Selection, TermEvent};
use crate::models::{Mergeable, PullRequest};
use crate::tasks::{
    branch_command, branch_endpoint_text, list_command, open_command, rebase_command, Action,
    CommandLine, DEFAULT_BASE_BRANCH, LISTING_FIELDS,
};
use crate::text::decimal;
use vstd::prelude::*;

verus! {

/// Milliseconds between two redraws.
pub const TICK_INTERVAL_MS: u64 = 50;

/// Seconds between two automatic refreshes of the list.
pub const AUTO_UPDATE_SECS: u64 = 60;

/// How many events the bus holds before the oldest are dropped.
pub const EVENT_BUS_CAPACITY: usize = 32;

/// What woke the loop.
#[derive(Debug, Clone)]
pub enum Wake {
    /// The redraw clock ticked.
    Redraw,
    /// The refresh clock ticked.
    AutoRefresh,
    /// The terminal delivered an event.
    Input(TermEvent),
    /// A background operation reported back.
    Bus(AppEvent),
}

/// The application: the repository it watches, the state, and the selection.
pub struct App {
    pub repo: String,
    pub state: AppState,
    pub selection: Selection,
}

/// The application as plain values.
#[verifier::ext_equal]
pub struct AppView {
    pub repo: Seq<char>,
    pub state: AppStateView,
    pub selection: Selection,
}

impl View for App {
    type V = AppView;

    open spec fn view(&self) -> AppView {
        AppView { repo: self.repo@, state: self.state@, selection: self.selection }
    }
}

/// The request to open the selected pull request, if one is selected.
pub open spec fn open_request(prs: Seq<PullRequest>, selected: Option<usize>) -> Option<Action> {
    match selected {
        Some(i) => if i < prs.len() {
            Some(Action::OpenExternally(prs[i as int].url))
        } else {
            None
        },
        None => None,
    }
}

/// The request to rebase the selected pull request, if one is selected and
/// its raw verdict is clean. For any other verdict nothing is requested.
pub open spec fn rebase_request(prs: Seq<PullRequest>, selected: Option<usize>) -> Option<Action> {
    match selected {
        Some(i) => if i < prs.len() && prs[i as int].mergeable == Mergeable::Okay {
            Some(Action::Rebase(prs[i as int].number))
        } else {
            None
        },
        None => None,
    }
}

/// The selection after a command, in a list of `len` items. Commands that
/// read or move the selection bring it back into the list first.
pub open spec fn selection_after(selection: Selection, len: nat, command: Command) -> Selection {
    match command {
        Command::MoveUp => selection.moved_up(len),
        Command::MoveDown => selection.moved_down(len),
        Command::Activate => selection.clamped(len),
        Command::Rebase => selection.clamped(len),
        Command::Refresh => selection,
        Command::Quit => selection,
        Command::Nothing => selection,
    }
}

/// The application after a terminal event: the selection may move and the
/// termination flag may be set; the list, the index and the error message
/// are never touched.
pub open spec fn after_input(app: AppView, event: TermEvent) -> AppView {
    AppView {
        repo: app.repo,
        state: AppStateView {
            done: app.state.done || command_of(event) == Command::Quit,
            ..app.state
        },
        selection: selection_after(app.selection, app.state.prs.len(), command_of(event)),
    }
}

/// What a terminal event asks the task supervisor for.
pub open spec fn action_for_input(app: AppView, event: TermEvent) -> Option<Action> {
    match command_of(event) {
        Command::Refresh => Some(Action::FetchPullRequests),
        Command::Activate => open_request(
            app.state.prs,
            app.selection.clamped(app.state.prs.len()).index,
        ),
        Command::Rebase => rebase_request(
            app.state.prs,
            app.selection.clamped(app.state.prs.len()).index,
        ),
        Command::MoveUp => None,
        Command::MoveDown => None,
        Command::Quit => None,
        Command::Nothing => None,
    }
}

/// The application after one step of the loop.
pub open spec fn after_wake(app: AppView, wake: Wake) -> AppView {
    match wake {
        Wake::Redraw => AppView { selection: app.selection.clamped(app.state.prs.len()), ..app },
        Wake::AutoRefresh => app,
        Wake::Input(event) => after_input(app, event),
        Wake::Bus(event) => AppView { state: reconcile(app.state, event), ..app },
    }
}

/// What one step of the loop asks for.
pub open spec fn action_for_wake(app: AppView, wake: Wake) -> Option<Action> {
    match wake {
        Wake::Redraw => Some(Action::Draw),
        Wake::AutoRefresh => Some(Action::FetchPullRequests),
        Wake::Input(event) => action_for_input(app, event),
        Wake::Bus(_) => None,
    }
}

impl App {
    /// The application as the loop starts it: nothing listed, nothing known,
    /// no error, nothing selected, not terminated.
    pub fn new(repo: String) -> (app: App)
        ensures
            app@ == (AppView {
                repo: repo@,
                state: initial_state(),
                selection: Selection { index: None },
            }),
    {
        App { repo, state: AppState::new(), selection: Selection::none() }
    }

    /// What the loop asks for on entry: one listing, and the latest commit of
    /// the default base branch.
    pub fn startup(&self) -> (actions: Vec<Action>)
        ensures
            actions@.len() == 2,
            actions@[0] == Action::FetchPullRequests,
            (actions@[1] matches Action::FetchBranchCommit(branch) && branch@
                == DEFAULT_BASE_BRANCH@),
    {
        let mut actions: Vec<Action> = Vec::new();
        actions.push(Action::FetchPullRequests);
        actions.push(Action::FetchBranchCommit(DEFAULT_BASE_BRANCH.to_owned()));
        actions
    }

    /// Whether the loop is over: the termination flag is set.
    pub fn finished(&self) -> (over: bool)
        ensures
            over == self@.state.done,
    {
        self.state.done
    }

    /// The request to open pull request `selected` of the list; nothing when
    /// there is no such row.
    pub fn open_externally(&self, selected: usize) -> (action: Option<Action>)
        ensures
            action == open_request(self@.state.prs, Some(selected)),
    {
        if selected < self.state.prs.len() {
            Some(Action::OpenExternally(self.state.prs[selected].url.clone()))
        } else {
            None
        }
    }

    /// The request to rebase pull request `selected` of the list. Unless its
    /// raw verdict is clean nothing is requested; that is no error.
    pub fn rebase(&self, selected: usize) -> (action: Option<Action>)
        ensures
            action == rebase_request(self@.state.prs, Some(selected)),
            selected < self@.state.prs.len() && self@.state.prs[selected as int].mergeable
                != Mergeable::Okay ==> action is None,
    {
        if selected < self.state.prs.len() {
            let pr = &self.state.prs[selected];
            match pr.mergeable {
                Mergeable::Okay => Some(Action::Rebase(pr.number)),
                _ => None,
            }
        } else {
            None
        }
    }

    /// Handles one terminal event. Anything that is not a bound key changes
    /// nothing and asks for nothing.
    pub fn handle_term_event(&mut self, event: &TermEvent) -> (action: Option<Action>)
        ensures
            final(self)@ == after_input(old(self)@, *event),
            action == action_for_input(old(self)@, *event),
            old(self)@.state.done ==> final(self)@.state.done,
    {
        let len = self.state.prs.len();
        match command_for(event) {
            Command::Refresh => Some(Action::FetchPullRequests),
            Command::Quit => {
                self.state.done = true;
                None
            },
            Command::MoveUp => {
                self.selection = self.selection.up(len);
                None
            },
            Command::MoveDown => {
                self.selection = self.selection.down(len);
                None
            },
            Command::Activate => {
                self.selection = self.selection.clamp(len);
                match self.selection.index {
                    Some(selected) => self.open_externally(selected),
                    None => None,
                }
            },
            Command::Rebase => {
                self.selection = self.selection.clamp(len);
                match self.selection.index {
                    Some(selected) => self.rebase(selected),
                    None => None,
                }
            },
            Command::Nothing => None,
        }
    }

    /// Folds one event from the bus into the state. The selection is left as
    /// it is, even when the list shrinks under it, and no action follows.
    pub fn handle_app_event(&mut self, event: AppEvent)
        ensures
            final(self)@ == (AppView { state: reconcile(old(self)@.state, event), ..old(self)@ }),
    {
        self.state.apply(event);
    }

    /// One step of the loop: handles what woke it and says what is wanted
    /// next. A redraw brings the selection back into the list before the
    /// table is painted.
    pub fn step(&mut self, wake: Wake) -> (action: Option<Action>)
        ensures
            final(self)@ == after_wake(old(self)@, wake),
            action == action_for_wake(old(self)@, wake),
            old(self)@.state.done ==> final(self)@.state.done,
    {
        match wake {
            Wake::Redraw => {
                self.selection = self.selection.clamp(self.state.prs.len());
                Some(Action::Draw)
            },
            Wake::AutoRefresh => Some(Action::FetchPullRequests),
            Wake::Input(event) => self.handle_term_event(&event),
            Wake::Bus(event) => {
                self.handle_app_event(event);
                None
            },
        }
    }

    /// The command line that carries out `action` for this repository.
    /// Painting runs no command.
    pub fn command_line(&self, action: &Action) -> (cmd: Option<CommandLine>)
        ensures
            match *action {
                Action::Draw => cmd is None,
                Action::FetchPullRequests => (cmd matches Some(c) && c.program@ == "gh"@
                    && c.args_text() == seq![
                    "pr"@,
                    "list"@,
                    "-a"@,
                    "@me"@,
                    "--json"@,
                    LISTING_FIELDS@,
                    "-R"@,
                    self@.repo,
                ]),
                Action::FetchBranchCommit(branch) => (cmd matches Some(c) && c.program@ == "gh"@
                    && c.args_text() == seq!["api"@, branch_endpoint_text(self@.repo, branch@)]),
                Action::OpenExternally(url) => (cmd matches Some(c) && c.program@ == "open"@
                    && c.args_text() == seq![url@]),
                Action::Rebase(number) => (cmd matches Some(c) && c.program@ == "gh"@
                    && c.args_text() == seq![
                    "pr"@,
                    "update-branch"@,
                    "--rebase"@,
                    "-R"@,
                    self@.repo,
                    decimal(number as int),
                ]),
            },
    {
        match action {
            Action::Draw => None,
            Action::FetchPullRequests => Some(list_command(self.repo.as_str())),
            Action::FetchBranchCommit(branch) => Some(
                branch_command(self.repo.as_str(), branch.as_str()),
            ),
            Action::OpenExternally(url) => Some(open_command(url.as_str())),
            Action::Rebase(number) => Some(rebase_command(self.repo.as_str(), *number)),
        }
    }
}

/// A rebase asked for on a pull request whose raw verdict is not clean asks
/// for no work and leaves the application as it was.
pub proof fn lemma_rebase_needs_clean_verdict(app: AppView, event: TermEvent)
    requires
        command_of(event) == Command::Rebase,
        app.selection.index matches Some(i) && i < app.state.prs.len() && app.state.prs[i as int].mergeable
            != Mergeable::Okay,
    ensures
        action_for_input(app, event) is None,
        after_input(app, event) == app,
{
    assert(after_input(app, event) =~= app);
}

/// Terminal input never edits the list, the index or the error message.
pub proof fn lemma_input_leaves_data_alone(app: AppView, event: TermEvent)
    ensures
        after_input(app, event).state.prs == app.state.prs,
        after_input(app, event).state.branches == app.state.branches,
        after_input(app, event).state.error_message == app.state.error_message,
        after_input(app, event).repo == app.repo,
        event is Ignored ==> after_input(app, event) == app && action_for_input(app, event) is None,
{
    if event is Ignored {
        assert(after_input(app, event) =~= app);
    }
}

/// After a key that reads or moves the selection, the selection is a row of
/// the list, or nothing when the list is empty.
pub proof fn lemma_selection_follows_list(app: AppView, event: TermEvent)
    requires
        command_of(event) == Command::MoveUp || command_of(event) == Command::MoveDown
            || command_of(event) == Command::Activate || command_of(event) == Command::Rebase,
    ensures
        after_input(app, event).selection.valid_for(app.state.prs.len()),
        app.state.prs.len() == 0 ==> after_input(app, event).selection.index is None,
{
}

/// Once the list has been replaced, the next redraw leaves a selection that
/// is a row of the new list, or nothing when the new list is empty, however
/// far the old selection was past its end.
pub proof fn lemma_redraw_after_listing(app: AppView, list: Vec<PullRequest>)
    ensures
        after_wake(
            after_wake(app, Wake::Bus(AppEvent::FetchedPullRequests(list))),
            Wake::Redraw,
        ).selection.valid_for(list@.len()),
        list@.len() == 0 ==> after_wake(
            after_wake(app, Wake::Bus(AppEvent::FetchedPullRequests(list))),
            Wake::Redraw,
        ).selection.index is None,
        after_wake(
            after_wake(app, Wake::Bus(AppEvent::FetchedPullRequests(list))),
            Wake::Redraw,
        ).state.prs == list@,
{
}

/// The termination flag is set by the quit key and by nothing else, and no
/// step clears it.
pub proof fn lemma_only_quit_terminates(app: AppView, wake: Wake)
    ensures
        app.state.done ==> after_wake(app, wake).state.done,
        after_wake(app, wake).state.done && !app.state.done ==> (wake matches Wake::Input(event)
            && command_of(event) == Command::Quit),
{
}

/// Only an event from the bus changes the list, the index or the error
/// message, and such an event asks for no further work.
pub proof fn lemma_only_the_bus_changes_data(app: AppView, wake: Wake)
    ensures
        !(wake is Bus) ==> after_wake(app, wake).state.prs == app.state.prs && after_wake(
            app,
            wake,
        ).state.branches == app.state.branches && after_wake(app, wake).state.error_message
            == app.state.error_message,
        wake is Bus ==> action_for_wake(app, wake) is None,
        after_wake(app, wake).repo == app.repo,
{
}

} // verus!
