//! The gateway to the version-control tool: the arguments of each invocation
//! and the reading of what an invocation left behind.
//!
//! Running the tool is the caller's part. This module says what to run and
//! what the exit status and the captured output mean.

use vstd::prelude::*;
use vstd::string::*;
use vstd::utf8::{decode_utf8, valid_utf8};
use crate::text::texts;

verus! {

/// Why an invocation of the tool gave no output to work with.
#[derive(Debug, PartialEq, Eq)]
pub enum GitError {
    /// The tool ended with status 128: there is no repository here.
    NotARepository,
    /// The tool failed otherwise; the text is what it wrote to its error stream.
    CommandFailed(String),
}

/// An error as a mathematical value.
pub enum GitErrorView {
    NotARepository,
    CommandFailed(Seq<char>),
}

impl View for GitError {
    type V = GitErrorView;

    open spec fn view(&self) -> GitErrorView {
        match self {
            GitError::NotARepository => GitErrorView::NotARepository,
            GitError::CommandFailed(s) => GitErrorView::CommandFailed(s@),
        }
    }
}

/// What the user is told when there is no repository.
pub const NOT_A_REPOSITORY: &'static str = "Not a git repository (or any parent directory)";

/// What a successful commit reports.
pub const COMMIT_SUCCESSFUL: &'static str = "Commit successful";

/// What a failed commit reports.
pub const COMMIT_FAILED: &'static str = "Commit failed";

/// The text that describes an error to the user.
pub open spec fn error_text(e: GitErrorView) -> Seq<char> {
    match e {
        GitErrorView::NotARepository => NOT_A_REPOSITORY@,
        GitErrorView::CommandFailed(s) => s,
    }
}

impl GitError {
    /// The text that describes the error to the user.
    pub fn message(&self) -> (s: String)
        ensures
            s@ == error_text(self@),
    {
        match self {
            GitError::NotARepository => NOT_A_REPOSITORY.to_owned(),
            GitError::CommandFailed(text) => text.clone(),
        }
    }
}

/// The view of the outcome of an invocation.
pub open spec fn outcome_view(r: Result<String, GitError>) -> Result<Seq<char>, GitErrorView> {
    match r {
        Ok(s) => Ok(s@),
        Err(e) => Err(e@),
    }
}

/// The text that lossy UTF-8 decoding makes of `bytes`: every maximal invalid
/// run is replaced by U+FFFD, everything else is decoded as it stands.
pub uninterp spec fn utf8_lossy(bytes: Seq<u8>) -> Seq<char>;

/// Calls `String::from_utf8_lossy` and owns the result. The contract names the
/// decoded text, and states the one fact the documentation gives outright:
/// bytes that are valid UTF-8 are decoded unchanged.
#[verifier::external_body]
fn decode_lossy(bytes: &[u8]) -> (s: String)
    ensures
        s@ == utf8_lossy(bytes@),
        valid_utf8(bytes@) ==> s@ == decode_utf8(bytes@),
{
    String::from_utf8_lossy(bytes).into_owned()
}

/// What an invocation of the tool left behind. `exit_status` is `None` where
/// the tool was ended by a signal.
#[derive(Debug, PartialEq, Eq)]
pub struct GitInvocationResult {
    pub exit_status: Option<i32>,
    pub stdout_text: String,
    pub stderr_text: String,
}

impl GitInvocationResult {
    /// Reads the captured streams as text. Bytes that are no UTF-8 are replaced,
    /// never refused.
    pub fn from_raw(exit_status: Option<i32>, stdout: &[u8], stderr: &[u8]) -> (r:
        GitInvocationResult)
        ensures
            r.exit_status == exit_status,
            r.stdout_text@ == utf8_lossy(stdout@),
            r.stderr_text@ == utf8_lossy(stderr@),
            valid_utf8(stdout@) ==> r.stdout_text@ == decode_utf8(stdout@),
            valid_utf8(stderr@) ==> r.stderr_text@ == decode_utf8(stderr@),
    {
        GitInvocationResult {
            exit_status,
            stdout_text: decode_lossy(stdout),
            stderr_text: decode_lossy(stderr),
        }
    }
}

/// What an invocation that captured its output amounts to: status 0 gives the
/// standard output, status 128 means there is no repository whatever the
/// error stream holds, and anything else fails with the error stream.
pub open spec fn captured_outcome(
    exit_status: Option<i32>,
    stdout_text: Seq<char>,
    stderr_text: Seq<char>,
) -> Result<Seq<char>, GitErrorView> {
    if exit_status == Some(0i32) {
        Ok(stdout_text)
    } else if exit_status == Some(128i32) {
        Err(GitErrorView::NotARepository)
    } else {
        Err(GitErrorView::CommandFailed(stderr_text))
    }
}

/// Reads the result of an invocation that captured its output.
pub fn get_git_res(result: GitInvocationResult) -> (r: Result<String, GitError>)
    ensures
        outcome_view(r) == captured_outcome(
            result.exit_status,
            result.stdout_text@,
            result.stderr_text@,
        ),
{
    match result.exit_status {
        Some(code) => {
            if code == 0 {
                Ok(result.stdout_text)
            } else if code == 128 {
                Err(GitError::NotARepository)
            } else {
                Err(GitError::CommandFailed(result.stderr_text))
            }
        },
        None => Err(GitError::CommandFailed(result.stderr_text)),
    }
}

/// Status 128 means "no repository" whatever else the invocation left behind.
pub proof fn lemma_status_128(stdout_text: Seq<char>, stderr_text: Seq<char>)
    ensures
        captured_outcome(Some(128i32), stdout_text, stderr_text) == Err::<
            Seq<char>,
            GitErrorView,
        >(GitErrorView::NotARepository),
{
}

/// What an invocation in the foreground amounts to. Its streams belong to the
/// terminal, so only success or failure is known.
pub open spec fn foreground_outcome(success: bool) -> Result<Seq<char>, GitErrorView> {
    if success {
        Ok(COMMIT_SUCCESSFUL@)
    } else {
        Err(GitErrorView::CommandFailed(COMMIT_FAILED@))
    }
}

/// Reads the result of a commit that ran in the foreground.
pub fn commit_outcome(success: bool) -> (r: Result<String, GitError>)
    ensures
        outcome_view(r) == foreground_outcome(success),
{
    if success {
        Ok(COMMIT_SUCCESSFUL.to_owned())
    } else {
        Err(GitError::CommandFailed(COMMIT_FAILED.to_owned()))
    }
}

/// The arguments of the invocation that shows the changes against `index`:
/// without colour, with three lines of context, and, if `only_staged`, the
/// staged changes only.
pub open spec fn diff_args_spec(index: Seq<char>, only_staged: bool) -> Seq<Seq<char>> {
    if only_staged {
        seq!["diff"@, "--no-color"@, "-U3"@, "--staged"@, index]
    } else {
        seq!["diff"@, "--no-color"@, "-U3"@, index]
    }
}

/// The arguments of the invocation that shows the commit `hash`.
pub open spec fn show_args_spec(hash: Seq<char>) -> Seq<Seq<char>> {
    seq!["show"@, "--no-color"@, "-U3"@, hash]
}

/// The arguments of the invocation that commits with `message`: signed off
/// if `signoff`, and through the editor unless `directly`.
pub open spec fn commit_args_spec(signoff: bool, directly: bool, message: Seq<char>) -> Seq<
    Seq<char>,
> {
    seq!["commit"@] + (if signoff {
        seq!["--signoff"@]
    } else {
        Seq::<Seq<char>>::empty()
    }) + (if !directly {
        seq!["--edit"@]
    } else {
        Seq::<Seq<char>>::empty()
    }) + seq!["-m"@, message]
}

/// The arguments of the invocation that shows the changes against `index`.
pub fn diff_args(index: &str, only_staged: bool) -> (args: Vec<String>)
    ensures
        texts(args@) == diff_args_spec(index@, only_staged),
{
    let mut args: Vec<String> = Vec::new();
    args.push("diff".to_owned());
    args.push("--no-color".to_owned());
    args.push("-U3".to_owned());
    if only_staged {
        args.push("--staged".to_owned());
    }
    args.push(index.to_owned());
    assert(texts(args@) =~= diff_args_spec(index@, only_staged));
    args
}

/// The arguments of the invocation that shows the commit `hash`.
pub fn show_args(hash: &str) -> (args: Vec<String>)
    ensures
        texts(args@) == show_args_spec(hash@),
{
    let mut args: Vec<String> = Vec::new();
    args.push("show".to_owned());
    args.push("--no-color".to_owned());
    args.push("-U3".to_owned());
    args.push(hash.to_owned());
    assert(texts(args@) =~= show_args_spec(hash@));
    args
}

/// The arguments of the invocation that commits with `message`.
pub fn commit_args(signoff: bool, directly: bool, message: &str) -> (args: Vec<String>)
    ensures
        texts(args@) == commit_args_spec(signoff, directly, message@),
{
    let mut args: Vec<String> = Vec::new();
    args.push("commit".to_owned());
    if signoff {
        args.push("--signoff".to_owned());
    }
    if !directly {
        args.push("--edit".to_owned());
    }
    args.push("-m".to_owned());
    args.push(message.to_owned());
    assert(texts(args@) =~= commit_args_spec(signoff, directly, message@));
    args
}

} // verus!
