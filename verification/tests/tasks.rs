use pr_dashboard::event::AppEvent;
use pr_dashboard::models::{Branch, Commit, Mergeable, Owner, PullRequest, Repo};
use pr_dashboard::tasks::{
    branch_command, branch_commit_event, branch_endpoint, list_command, open_command,
    output_text, pull_requests_event, rebase_command, rebase_event, repo_command, repo_slug,
    CommandOutput, FetchError, DEFAULT_BASE_BRANCH, LISTING_FIELDS,
};

fn strings(items: &[&str]) -> Vec<String> {
    items.iter().map(|s| s.to_string()).collect()
}

fn output(success: bool, stdout: &[u8], stderr: &[u8]) -> CommandOutput {
    CommandOutput { success, stdout: stdout.to_vec(), stderr: stderr.to_vec() }
}

fn pr(number: i32) -> PullRequest {
    PullRequest {
        url: String::new(),
        id: 0,
        node_id: String::new(),
        number,
        state: String::new(),
        mergeable: Mergeable::Unknown,
        locked: false,
        title: String::new(),
        body: None,
        created_at: String::new(),
        updated_at: String::new(),
        closed_at: None,
        merged_at: None,
        branch: String::new(),
        base_name: String::new(),
        base_commit: String::new(),
        draft: false,
        checks: vec![],
    }
}

#[test]
fn constants() {
    assert_eq!(DEFAULT_BASE_BRANCH, "master");
    assert_eq!(
        LISTING_FIELDS,
        "number,title,mergeable,headRefName,baseRefName,baseRefOid,isDraft,url,statusCheckRollup"
    );
}

#[test]
fn listing_command_line() {
    let cmd = list_command("someone/tool");
    assert_eq!(cmd.program, "gh");
    assert_eq!(
        cmd.args,
        strings(&[
            "pr",
            "list",
            "-a",
            "@me",
            "--json",
            "number,title,mergeable,headRefName,baseRefName,baseRefOid,isDraft,url,statusCheckRollup",
            "-R",
            "someone/tool",
        ])
    );
}

#[test]
fn branch_command_line() {
    let cmd = branch_command("someone/tool", "master");
    assert_eq!(cmd.program, "gh");
    assert_eq!(cmd.args, strings(&["api", "/repos/someone/tool/branches/master"]));
    assert_eq!(branch_endpoint("a/b", "release/1.0"), "/repos/a/b/branches/release/1.0");
    assert_eq!(branch_endpoint("", ""), "/repos//branches/");
}

#[test]
fn repo_command_line() {
    let cmd = repo_command();
    assert_eq!(cmd.program, "gh");
    assert_eq!(cmd.args, strings(&["repo", "view", "--json", "name,owner"]));
}

#[test]
fn rebase_command_line() {
    let cmd = rebase_command("someone/tool", 42);
    assert_eq!(cmd.program, "gh");
    assert_eq!(
        cmd.args,
        strings(&["pr", "update-branch", "--rebase", "-R", "someone/tool", "42"])
    );
    assert_eq!(rebase_command("r", 1207).args[5], "1207");
}

#[test]
fn open_command_line() {
    let cmd = open_command("https://example.com/pull/42");
    assert_eq!(cmd.program, "open");
    assert_eq!(cmd.args, strings(&["https://example.com/pull/42"]));
}

#[test]
fn repo_slug_is_owner_slash_name() {
    let repo = Repo { name: "tool".to_string(), owner: Owner { login: "someone".to_string() } };
    assert_eq!(repo_slug(&repo), "someone/tool");
}

#[test]
fn successful_output_is_its_text() {
    assert_eq!(output_text(output(true, b"[]", b"")), Ok("[]".to_string()));
    assert_eq!(output_text(output(true, b"", b"warning")), Ok(String::new()));
    assert_eq!(
        output_text(output(true, "gr\u{fc}n".as_bytes(), b"")),
        Ok("gr\u{fc}n".to_string())
    );
}

#[test]
fn failed_command_reports_its_error_stream() {
    assert_eq!(
        output_text(output(false, b"[]", b"no such repo\n")),
        Err(FetchError::CommandFailed("no such repo\n".to_string()))
    );
    assert_eq!(
        output_text(output(false, b"", &[b'a', 0xff, b'b'])),
        Err(FetchError::CommandFailed("a\u{fffd}b".to_string()))
    );
}

#[test]
fn output_that_is_not_text_is_an_error() {
    assert_eq!(output_text(output(true, &[0xff, 0xfe], b"")), Err(FetchError::InvalidUtf8));
    assert_eq!(output_text(output(true, &[b'a', 0xc3], b"")), Err(FetchError::InvalidUtf8));
}

#[test]
fn error_messages() {
    assert_eq!(FetchError::Launch("no such file".to_string()).message(), "no such file");
    assert_eq!(
        FetchError::CommandFailed("denied".to_string()).message(),
        "gh command failed: denied"
    );
    assert_eq!(FetchError::InvalidUtf8.message(), "command output is not valid UTF-8");
    assert_eq!(
        FetchError::Malformed("expected value at line 1".to_string()).message(),
        "expected value at line 1"
    );
}

#[test]
fn listing_ends_in_one_event() {
    match pull_requests_event(Ok(vec![pr(1), pr(2)])) {
        AppEvent::FetchedPullRequests(list) => {
            assert_eq!(list.iter().map(|p| p.number).collect::<Vec<i32>>(), vec![1, 2]);
        }
        other => panic!("unexpected event {:?}", other),
    }
    match pull_requests_event(Err(FetchError::CommandFailed("denied\n".to_string()))) {
        AppEvent::Failure(text) => assert_eq!(text, "gh command failed: denied\n"),
        other => panic!("unexpected event {:?}", other),
    }
}

#[test]
fn branch_lookup_ends_in_one_event() {
    let found = Branch {
        name: "master".to_string(),
        commit: Commit { sha: "abc123".to_string(), url: String::new() },
    };
    match branch_commit_event("master".to_string(), Ok(found)) {
        AppEvent::FetchedBranchCommit(branch, commit) => {
            assert_eq!(branch, "master");
            assert_eq!(commit, "abc123");
        }
        other => panic!("unexpected event {:?}", other),
    }
    match branch_commit_event("master".to_string(), Err(FetchError::InvalidUtf8)) {
        AppEvent::Failure(text) => assert_eq!(text, "command output is not valid UTF-8"),
        other => panic!("unexpected event {:?}", other),
    }
}

#[test]
fn rebase_reports_only_failures() {
    assert!(rebase_event(Ok(output(true, b"done", b"note"))).is_none());
    match rebase_event(Ok(output(false, b"", b"cannot rebase\nconflict"))) {
        Some(AppEvent::Failure(text)) => assert_eq!(text, "cannot rebase\nconflict"),
        other => panic!("unexpected event {:?}", other),
    }
    match rebase_event(Err("gh: not found".to_string())) {
        Some(AppEvent::Failure(text)) => assert_eq!(text, "gh: not found"),
        other => panic!("unexpected event {:?}", other),
    }
}
