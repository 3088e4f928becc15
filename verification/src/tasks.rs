//! Background work as data: what the loop asks the task supervisor to do, the
//! command lines that do it, and how the outcome of a command becomes an
//! event. Running the commands is left to the caller.

use crate::event::AppEvent;
use crate::models::{Branch, PullRequest, Repo};
use crate::text::{decimal, push_decimal, push_text, texts};
use std::string::FromUtf8Error;
use vstd::prelude::*;
use vstd::utf8::{decode_utf8, valid_utf8};

verus! {

/// What the loop asks for after it has handled one wake-up.
#[derive(Debug, Clone, PartialEq, Eq)]
pub enum Action {
    /// Paint the current state.
    Draw,
    /// List the pull requests again.
    FetchPullRequests,
    /// Look up the latest commit of the named branch.
    FetchBranchCommit(String),
    /// Open the given address in the user's viewer.
    OpenExternally(String),
    /// Rebase the pull request with the given number onto its base.
    Rebase(i32),
}

/// A program and its arguments.
#[derive(Debug, Clone, PartialEq, Eq)]
pub struct CommandLine {
    pub program: String,
    pub args: Vec<String>,
}

impl CommandLine {
    /// The arguments as texts.
    pub open spec fn args_text(self) -> Seq<Seq<char>> {
        texts(self.args@)
    }
}

/// What a finished command left behind.
#[derive(Debug, Clone, PartialEq, Eq)]
pub struct CommandOutput {
    /// The command exited with status zero.
    pub success: bool,
    pub stdout: Vec<u8>,
    pub stderr: Vec<u8>,
}

/// Why a fetch produced no data.
#[derive(Debug, Clone, PartialEq, Eq)]
pub enum FetchError {
    /// The tool could not be started; the text says why.
    Launch(String),
    /// The tool exited with a non-zero status; the text is what it wrote to
    /// its error stream.
    CommandFailed(String),
    /// The tool's output is not UTF-8.
    InvalidUtf8,
    /// The tool's output is not the structure that was asked for; the text
    /// says what is wrong with it.
    Malformed(String),
}

/// The branch whose latest commit is looked up when the loop starts.
pub const DEFAULT_BASE_BRANCH: &'static str = "master";

/// The fields that a listing asks for.
pub const LISTING_FIELDS: &'static str =
    "number,title,mergeable,headRefName,baseRefName,baseRefOid,isDraft,url,statusCheckRollup";

/// `std::string::FromUtf8Error`, the error of `String::from_utf8`. Nothing is
/// claimed of what it holds.
#[verifier::external_type_specification]
#[verifier::external_body]
pub struct ExFromUtf8Error(FromUtf8Error);

/// `String::from_utf8` of std. The claim: the bytes are accepted exactly when
/// they are well-formed UTF-8, and the string is then the text they encode.
#[verifier::external_body]
fn utf8_text(bytes: Vec<u8>) -> (r: Result<String, FromUtf8Error>)
    ensures
        r is Ok <==> valid_utf8(bytes@),
        r matches Ok(text) ==> text@ == decode_utf8(bytes@),
{
    String::from_utf8(bytes)
}

/// The text that `String::from_utf8_lossy` of std makes of a byte string:
/// the decoded text, with a replacement character for each malformed part.
pub uninterp spec fn lossy_text(bytes: Seq<u8>) -> Seq<char>;

/// `String::from_utf8_lossy` of std, its result taken as an owned string.
/// The claim: the result depends on the bytes alone, and on well-formed
/// UTF-8 it is the text the bytes encode.
#[verifier::external_body]
fn utf8_lossy(bytes: &Vec<u8>) -> (text: String)
    ensures
        text@ == lossy_text(bytes@),
        valid_utf8(bytes@) ==> text@ == decode_utf8(bytes@),
{
    String::from_utf8_lossy(bytes).into_owned()
}

fn push_arg(args: &mut Vec<String>, piece: &str)
    ensures
        texts(final(args)@) == texts(old(args)@).push(piece@),
{
    args.push(piece.to_owned());
    proof {
        assert(texts(args@) =~= texts(old(args)@).push(piece@));
    }
}

/// The address under which the collaborator describes `branch` of `repo`.
pub open spec fn branch_endpoint_text(repo: Seq<char>, branch: Seq<char>) -> Seq<char> {
    "/repos/"@ + repo + "/branches/"@ + branch
}

pub fn branch_endpoint(repo: &str, branch: &str) -> (path: String)
    ensures
        path@ == branch_endpoint_text(repo@, branch@),
{
    let mut path = "/repos/".to_owned();
    push_text(&mut path, repo);
    push_text(&mut path, "/branches/");
    push_text(&mut path, branch);
    path
}

/// The identifier of a repository: the owner's login, a slash, the name.
pub open spec fn repo_slug_text(repo: Repo) -> Seq<char> {
    repo.owner.login@ + "/"@ + repo.name@
}

pub fn repo_slug(repo: &Repo) -> (slug: String)
    ensures
        slug@ == repo_slug_text(*repo),
{
    let mut slug = repo.owner.login.clone();
    push_text(&mut slug, "/");
    push_text(&mut slug, repo.name.as_str());
    slug
}

/// The command that lists the user's open pull requests of `repo`.
pub fn list_command(repo: &str) -> (cmd: CommandLine)
    ensures
        cmd.program@ == "gh"@,
        cmd.args_text() == seq![
            "pr"@,
            "list"@,
            "-a"@,
            "@me"@,
            "--json"@,
            LISTING_FIELDS@,
            "-R"@,
            repo@,
        ],
{
    let mut args: Vec<String> = Vec::new();
    proof {
        assert(texts(args@) =~= Seq::<Seq<char>>::empty());
    }
    push_arg(&mut args, "pr");
    push_arg(&mut args, "list");
    push_arg(&mut args, "-a");
    push_arg(&mut args, "@me");
    push_arg(&mut args, "--json");
    push_arg(&mut args, LISTING_FIELDS);
    push_arg(&mut args, "-R");
    push_arg(&mut args, repo);
    let cmd = CommandLine { program: "gh".to_owned(), args };
    proof {
        assert(cmd.args_text() =~= seq![
            "pr"@,
            "list"@,
            "-a"@,
            "@me"@,
            "--json"@,
            LISTING_FIELDS@,
            "-R"@,
            repo@,
        ]);
    }
    cmd
}

/// The command that reads the latest commit of `branch` of `repo`.
pub fn branch_command(repo: &str, branch: &str) -> (cmd: CommandLine)
    ensures
        cmd.program@ == "gh"@,
        cmd.args_text() == seq!["api"@, branch_endpoint_text(repo@, branch@)],
{
    let mut args: Vec<String> = Vec::new();
    proof {
        assert(texts(args@) =~= Seq::<Seq<char>>::empty());
    }
    push_arg(&mut args, "api");
    let path = branch_endpoint(repo, branch);
    push_arg(&mut args, path.as_str());
    let cmd = CommandLine { program: "gh".to_owned(), args };
    proof {
        assert(cmd.args_text() =~= seq!["api"@, branch_endpoint_text(repo@, branch@)]);
    }
    cmd
}

/// The command that describes the repository of the working directory.
pub fn repo_command() -> (cmd: CommandLine)
    ensures
        cmd.program@ == "gh"@,
        cmd.args_text() == seq!["repo"@, "view"@, "--json"@, "name,owner"@],
{
    let mut args: Vec<String> = Vec::new();
    proof {
        assert(texts(args@) =~= Seq::<Seq<char>>::empty());
    }
    push_arg(&mut args, "repo");
    push_arg(&mut args, "view");
    push_arg(&mut args, "--json");
    push_arg(&mut args, "name,owner");
    let cmd = CommandLine { program: "gh".to_owned(), args };
    proof {
        assert(cmd.args_text() =~= seq!["repo"@, "view"@, "--json"@, "name,owner"@]);
    }
    cmd
}

/// The command that rebases pull request `number` of `repo` onto its base.
pub fn rebase_command(repo: &str, number: i32) -> (cmd: CommandLine)
    ensures
        cmd.program@ == "gh"@,
        cmd.args_text() == seq![
            "pr"@,
            "update-branch"@,
            "--rebase"@,
            "-R"@,
            repo@,
            decimal(number as int),
        ],
{
    let mut args: Vec<String> = Vec::new();
    proof {
        assert(texts(args@) =~= Seq::<Seq<char>>::empty());
    }
    push_arg(&mut args, "pr");
    push_arg(&mut args, "update-branch");
    push_arg(&mut args, "--rebase");
    push_arg(&mut args, "-R");
    push_arg(&mut args, repo);
    let mut numeral = String::new();
    push_decimal(&mut numeral, number);
    proof {
        assert(numeral@ =~= decimal(number as int));
    }
    push_arg(&mut args, numeral.as_str());
    let cmd = CommandLine { program: "gh".to_owned(), args };
    proof {
        assert(cmd.args_text() =~= seq![
            "pr"@,
            "update-branch"@,
            "--rebase"@,
            "-R"@,
            repo@,
            decimal(number as int),
        ]);
    }
    cmd
}

/// The command that opens `url` in the user's viewer.
pub fn open_command(url: &str) -> (cmd: CommandLine)
    ensures
        cmd.program@ == "open"@,
        cmd.args_text() == seq![url@],
{
    let mut args: Vec<String> = Vec::new();
    proof {
        assert(texts(args@) =~= Seq::<Seq<char>>::empty());
    }
    push_arg(&mut args, url);
    let cmd = CommandLine { program: "open".to_owned(), args };
    proof {
        assert(cmd.args_text() =~= seq![url@]);
    }
    cmd
}

impl FetchError {
    /// The message shown for this error.
    pub open spec fn message_text(self) -> Seq<char> {
        match self {
            FetchError::Launch(why) => why@,
            FetchError::CommandFailed(stderr) => "gh command failed: "@ + stderr@,
            FetchError::InvalidUtf8 => "command output is not valid UTF-8"@,
            FetchError::Malformed(why) => why@,
        }
    }

    pub fn message(&self) -> (text: String)
        ensures
            text@ == self.message_text(),
    {
        match self {
            FetchError::Launch(why) => why.clone(),
            FetchError::CommandFailed(stderr) => {
                let mut text = "gh command failed: ".to_owned();
                push_text(&mut text, stderr.as_str());
                text
            },
            FetchError::InvalidUtf8 => "command output is not valid UTF-8".to_owned(),
            FetchError::Malformed(why) => why.clone(),
        }
    }
}

/// Reads the text out of a finished command. A non-zero exit is an error
/// that carries the error stream; output that is not UTF-8 is an error too.
pub fn output_text(output: CommandOutput) -> (r: Result<String, FetchError>)
    ensures
        !output.success ==> (r matches Err(FetchError::CommandFailed(stderr)) && stderr@
            == lossy_text(output.stderr@)),
        output.success && valid_utf8(output.stdout@) ==> (r matches Ok(text) && text@
            == decode_utf8(output.stdout@)),
        output.success && !valid_utf8(output.stdout@) ==> r == Err::<String, FetchError>(
            FetchError::InvalidUtf8,
        ),
{
    if !output.success {
        return Err(FetchError::CommandFailed(utf8_lossy(&output.stderr)));
    }
    match utf8_text(output.stdout) {
        Ok(text) => Ok(text),
        Err(_) => Err(FetchError::InvalidUtf8),
    }
}

/// The event that ends a listing: the list on success, else a failure with
/// the error's message.
pub fn pull_requests_event(result: Result<Vec<PullRequest>, FetchError>) -> (event: AppEvent)
    ensures
        match result {
            Ok(list) => event == AppEvent::FetchedPullRequests(list),
            Err(e) => event matches AppEvent::Failure(text) && text@ == e.message_text(),
        },
{
    match result {
        Ok(list) => AppEvent::FetchedPullRequests(list),
        Err(e) => AppEvent::Failure(e.message()),
    }
}

/// The event that ends a branch lookup: the branch with its latest commit on
/// success, else a failure with the error's message.
pub fn branch_commit_event(branch: String, result: Result<Branch, FetchError>) -> (event: AppEvent)
    ensures
        match result {
            Ok(found) => event == AppEvent::FetchedBranchCommit(branch, found.commit.sha),
            Err(e) => event matches AppEvent::Failure(text) && text@ == e.message_text(),
        },
{
    match result {
        Ok(found) => AppEvent::FetchedBranchCommit(branch, found.head()),
        Err(e) => AppEvent::Failure(e.message()),
    }
}

/// The event that ends a rebase, if any: on success nothing is said, since
/// the next listing shows the result. A non-zero exit reports the error
/// stream, and a tool that could not be started reports why.
pub fn rebase_event(result: Result<CommandOutput, String>) -> (event: Option<AppEvent>)
    ensures
        match result {
            Ok(output) => if output.success {
                event is None
            } else {
                event matches Some(AppEvent::Failure(text)) && text@ == lossy_text(output.stderr@)
            },
            Err(why) => event == Some(AppEvent::Failure(why)),
        },
{
    match result {
        Ok(output) => if output.success {
            None
        } else {
            Some(AppEvent::Failure(utf8_lossy(&output.stderr)))
        },
        Err(why) => Some(AppEvent::Failure(why)),
    }
}

} // verus!
