use pr_dashboard::event::{AppEvent, AppState};
use pr_dashboard::models::{Mergeable, PullRequest};

fn pr(number: i32, title: &str) -> PullRequest {
    PullRequest {
        url: format!("https://example.com/pull/{}", number),
        id: 0,
        node_id: String::new(),
        number,
        state: "open".to_string(),
        mergeable: Mergeable::Okay,
        locked: false,
        title: title.to_string(),
        body: None,
        created_at: String::new(),
        updated_at: String::new(),
        closed_at: None,
        merged_at: None,
        branch: "feature".to_string(),
        base_name: "main".to_string(),
        base_commit: "abc123".to_string(),
        draft: false,
        checks: vec![],
    }
}

fn numbers(state: &AppState) -> Vec<i32> {
    state.prs.iter().map(|p| p.number).collect()
}

#[test]
fn initial_state_is_empty() {
    let state = AppState::new();
    assert!(state.prs.is_empty());
    assert_eq!(state.branches.len(), 0);
    assert_eq!(state.error_message, None);
    assert!(!state.done);

    let by_default = AppState::default();
    assert!(by_default.prs.is_empty());
    assert_eq!(by_default.branches.len(), 0);
    assert_eq!(by_default.error_message, None);
    assert!(!by_default.done);
}

#[test]
fn failure_event_shows_on_one_line() {
    let mut state = AppState::new();
    state.apply(AppEvent::Failure("line1\nline2".to_string()));
    assert_eq!(state.error_message, Some("line1 line2".to_string()));
}

#[test]
fn failure_replaces_the_earlier_failure() {
    let mut state = AppState::new();
    state.apply(AppEvent::Failure("first".to_string()));
    state.apply(AppEvent::Failure("second\nhalf".to_string()));
    assert_eq!(state.error_message, Some("second half".to_string()));
}

#[test]
fn failure_survives_later_successes() {
    let mut state = AppState::new();
    state.apply(AppEvent::Failure("broken".to_string()));
    state.apply(AppEvent::FetchedPullRequests(vec![pr(1, "one")]));
    state.apply(AppEvent::FetchedBranchCommit("main".to_string(), "abc123".to_string()));
    assert_eq!(state.error_message, Some("broken".to_string()));
}

#[test]
fn failure_touches_nothing_else() {
    let mut state = AppState::new();
    state.apply(AppEvent::FetchedPullRequests(vec![pr(1, "one"), pr(2, "two")]));
    state.apply(AppEvent::FetchedBranchCommit("main".to_string(), "abc123".to_string()));
    state.apply(AppEvent::Failure("broken".to_string()));
    assert_eq!(numbers(&state), vec![1, 2]);
    assert_eq!(state.branches.latest("main"), Some(&"abc123".to_string()));
    assert!(!state.done);
}

#[test]
fn listing_replaces_the_list() {
    let mut state = AppState::new();
    state.apply(AppEvent::FetchedPullRequests(vec![pr(1, "one"), pr(2, "two"), pr(3, "three")]));
    assert_eq!(numbers(&state), vec![1, 2, 3]);
    state.apply(AppEvent::FetchedPullRequests(vec![pr(9, "nine"), pr(2, "two again")]));
    assert_eq!(numbers(&state), vec![9, 2]);
    assert_eq!(state.prs[1].title, "two again");
    state.apply(AppEvent::FetchedPullRequests(vec![]));
    assert!(state.prs.is_empty());
}

#[test]
fn branch_commit_is_upserted() {
    let mut state = AppState::new();
    state.apply(AppEvent::FetchedBranchCommit("main".to_string(), "abc123".to_string()));
    state.apply(AppEvent::FetchedBranchCommit("develop".to_string(), "777".to_string()));
    assert_eq!(state.branches.len(), 2);
    state.apply(AppEvent::FetchedBranchCommit("main".to_string(), "def456".to_string()));
    assert_eq!(state.branches.len(), 2);
    assert_eq!(state.branches.latest("main"), Some(&"def456".to_string()));
    assert_eq!(state.branches.latest("develop"), Some(&"777".to_string()));
}

#[test]
fn branch_commit_applied_twice_is_applied_once() {
    let event = AppEvent::FetchedBranchCommit("main".to_string(), "abc123".to_string());
    let mut once = AppState::new();
    once.apply(event.clone());
    let mut twice = AppState::new();
    twice.apply(event.clone());
    twice.apply(event);
    assert_eq!(once.branches.len(), twice.branches.len());
    assert_eq!(once.branches.latest("main"), twice.branches.latest("main"));
    assert_eq!(twice.branches.latest("main"), Some(&"abc123".to_string()));
}

#[test]
fn events_do_not_terminate() {
    let mut state = AppState::new();
    state.apply(AppEvent::FetchedPullRequests(vec![pr(1, "one")]));
    state.apply(AppEvent::Failure("x".to_string()));
    assert!(!state.done);
    state.done = true;
    state.apply(AppEvent::FetchedPullRequests(vec![]));
    assert!(state.done);
}
