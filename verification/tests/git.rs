use aigit::git::{
    commit_args, commit_outcome, diff_args, get_git_res, show_args, GitError, GitInvocationResult,
};

fn strings(v: &[&str]) -> Vec<String> {
    v.iter().map(|s| s.to_string()).collect()
}

fn result(code: Option<i32>, out: &str, err: &str) -> GitInvocationResult {
    GitInvocationResult::from_raw(code, out.as_bytes(), err.as_bytes())
}

#[test]
fn status_zero_gives_stdout() {
    assert_eq!(get_git_res(result(Some(0), "diff --git a/x b/x\n", "warning")), Ok("diff --git a/x b/x\n".to_string()));
    assert_eq!(get_git_res(result(Some(0), "", "")), Ok(String::new()));
}

#[test]
fn status_128_is_not_a_repository_whatever_stderr_says() {
    assert_eq!(get_git_res(result(Some(128), "", "")), Err(GitError::NotARepository));
    assert_eq!(
        get_git_res(result(Some(128), "some output", "fatal: bad revision 'x'")),
        Err(GitError::NotARepository)
    );
}

#[test]
fn other_status_fails_with_stderr() {
    assert_eq!(
        get_git_res(result(Some(1), "out", "error: boom")),
        Err(GitError::CommandFailed("error: boom".to_string()))
    );
    assert_eq!(
        get_git_res(result(Some(-1), "out", "")),
        Err(GitError::CommandFailed(String::new()))
    );
    assert_eq!(
        get_git_res(result(None, "out", "killed")),
        Err(GitError::CommandFailed("killed".to_string()))
    );
    assert_eq!(
        get_git_res(result(Some(129), "", "usage")),
        Err(GitError::CommandFailed("usage".to_string()))
    );
}

#[test]
fn captured_bytes_are_decoded_lossily() {
    let r = GitInvocationResult::from_raw(Some(0), b"ok \xff\xfe end", b"caf\xc3\xa9 \x80");
    assert_eq!(r.exit_status, Some(0));
    assert_eq!(r.stdout_text, "ok \u{fffd}\u{fffd} end");
    assert_eq!(r.stderr_text, "café \u{fffd}");
    let valid = GitInvocationResult::from_raw(None, "≤ ⚠️".as_bytes(), b"");
    assert_eq!(valid.stdout_text, "≤ ⚠️");
    assert_eq!(valid.stderr_text, "");
}

#[test]
fn error_messages() {
    assert_eq!(
        GitError::NotARepository.message(),
        "Not a git repository (or any parent directory)"
    );
    assert_eq!(GitError::CommandFailed("boom".to_string()).message(), "boom");
}

#[test]
fn commit_outcome_goes_by_success_alone() {
    assert_eq!(commit_outcome(true), Ok("Commit successful".to_string()));
    assert_eq!(
        commit_outcome(false),
        Err(GitError::CommandFailed("Commit failed".to_string()))
    );
}

#[test]
fn diff_arguments() {
    assert_eq!(diff_args("HEAD", false), strings(&["diff", "--no-color", "-U3", "HEAD"]));
    assert_eq!(
        diff_args("HEAD", true),
        strings(&["diff", "--no-color", "-U3", "--staged", "HEAD"])
    );
    assert_eq!(diff_args("src/a b.rs", false), strings(&["diff", "--no-color", "-U3", "src/a b.rs"]));
}

#[test]
fn show_arguments() {
    assert_eq!(show_args("abc123"), strings(&["show", "--no-color", "-U3", "abc123"]));
}

#[test]
fn commit_arguments() {
    assert_eq!(
        commit_args(false, false, "msg"),
        strings(&["commit", "--edit", "-m", "msg"])
    );
    assert_eq!(
        commit_args(true, false, "msg"),
        strings(&["commit", "--signoff", "--edit", "-m", "msg"])
    );
    assert_eq!(commit_args(false, true, "msg"), strings(&["commit", "-m", "msg"]));
    assert_eq!(
        commit_args(true, true, "feat: x\n\nbody"),
        strings(&["commit", "--signoff", "-m", "feat: x\n\nbody"])
    );
}
