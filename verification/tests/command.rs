use aigit::chat::{dummy_chat_fn, ChatBackend, ChatError};
use aigit::command::{
    after_commit, after_explanation, after_message, after_patch, begin, exit_code, handle_list,
    platform_listing, step, Action, Command, CommandContext, CommandError, Event, MissingSetting,
    Stage, Transition, PLACEHOLDER_MESSAGE, RULE,
};
use aigit::git::{GitError, GitInvocationResult};
use aigit::ollama::read_exchange;
use aigit::prompt::{prompt_create_commit_msg, prompt_diff};

fn ctx(platform: &str) -> CommandContext {
    CommandContext {
        platform: platform.to_string(),
        model: "deepseek-r1:8b".to_string(),
        credential: "none".to_string(),
        base_url: "http://localhost".to_string(),
        port: "11434".to_string(),
    }
}

fn strings(v: &[&str]) -> Vec<String> {
    v.iter().map(|s| s.to_string()).collect()
}

fn captured(code: Option<i32>, out: &str, err: &str) -> Event {
    Event::Captured(GitInvocationResult::from_raw(code, out.as_bytes(), err.as_bytes()))
}

fn failed(e: CommandError) -> Transition {
    Transition { stage: Stage::Failed, output: Vec::new(), action: Action::Fail(e) }
}

const DIFF: &str = "diff --git a/x b/x\n-old\n+new\n";

#[test]
fn rule_is_76_equal_signs() {
    assert_eq!(RULE, "=".repeat(76));
}

#[test]
fn diff_starts_by_capturing_the_diff() {
    let c = Command::diff(Some("src".to_string()), false);
    assert_eq!(
        step(&ctx("ollama"), &c, Stage::Start, Event::Begin),
        Transition {
            stage: Stage::AwaitPatch,
            output: Vec::new(),
            action: Action::RunCaptured(strings(&["diff", "--no-color", "-U3", "src"])),
        }
    );
}

#[test]
fn missing_revision_means_head() {
    assert_eq!(Command::diff(None, true), Command::Diff { index: "HEAD".to_string(), explain: true });
    assert_eq!(Command::show(None, false), Command::Show { hash: "HEAD".to_string(), explain: false });
    assert_eq!(
        Command::show(Some("abc".to_string()), true),
        Command::Show { hash: "abc".to_string(), explain: true }
    );
}

#[test]
fn show_starts_by_capturing_the_commit() {
    let c = Command::show(None, false);
    assert_eq!(
        begin(&c).action,
        Action::RunCaptured(strings(&["show", "--no-color", "-U3", "HEAD"]))
    );
}

#[test]
fn commit_starts_by_capturing_the_staged_diff() {
    let c = Command::Commit { explain: false, signoff: false, direct: false };
    assert_eq!(
        begin(&c),
        Transition {
            stage: Stage::AwaitPatch,
            output: Vec::new(),
            action: Action::RunCaptured(strings(&["diff", "--no-color", "-U3", "--staged", "HEAD"])),
        }
    );
}

#[test]
fn list_does_nothing() {
    let c = Command::List { number: Some(3), explain: true };
    assert_eq!(
        step(&ctx("ollama"), &c, Stage::Start, Event::Begin),
        Transition { stage: Stage::Done, output: Vec::new(), action: Action::Finish }
    );
    assert_eq!(handle_list(Some(3), true), Ok(()));
    assert_eq!(handle_list(None, false), Ok(()));
}

#[test]
fn diff_without_explain_prints_and_finishes() {
    let c = Command::diff(None, false);
    assert_eq!(
        step(&ctx("ollama"), &c, Stage::AwaitPatch, captured(Some(0), DIFF, "")),
        Transition {
            stage: Stage::Done,
            output: strings(&[RULE, "Git Diff Content", RULE, DIFF]),
            action: Action::Finish,
        }
    );
}

#[test]
fn diff_with_explain_asks_the_backend() {
    let c = Command::diff(None, true);
    assert_eq!(
        step(&ctx("ollama"), &c, Stage::AwaitPatch, captured(Some(0), DIFF, "")),
        Transition {
            stage: Stage::AwaitExplanation,
            output: strings(&[RULE, "Git Diff Content", RULE, DIFF, RULE, "Explaining...\n"]),
            action: Action::Ask {
                backend: ChatBackend::Ollama,
                model: "deepseek-r1:8b".to_string(),
                credential: "none".to_string(),
                messages: prompt_diff(DIFF.to_string()),
            },
        }
    );
}

#[test]
fn show_with_explain_uses_its_own_heading() {
    let c = Command::show(None, true);
    let t = step(&ctx("nowhere"), &c, Stage::AwaitPatch, captured(Some(0), DIFF, ""));
    assert_eq!(
        t.output,
        strings(&[RULE, "Git Show Content", RULE, DIFF, RULE, "Explaining...\n"])
    );
    assert_eq!(
        t.action,
        Action::Ask {
            backend: ChatBackend::Dummy,
            model: "deepseek-r1:8b".to_string(),
            credential: "none".to_string(),
            messages: prompt_diff(DIFF.to_string()),
        }
    );
}

#[test]
fn exit_128_is_not_a_repository_on_every_subcommand() {
    let commands = [
        Command::diff(None, false),
        Command::diff(None, true),
        Command::show(None, true),
        Command::Commit { explain: true, signoff: true, direct: true },
        Command::Commit { explain: false, signoff: false, direct: false },
    ];
    for c in commands.iter() {
        for err in ["", "fatal: not a git repository", "anything else"] {
            assert_eq!(
                step(&ctx("ollama"), c, Stage::AwaitPatch, captured(Some(128), "out", err)),
                failed(CommandError::Git(GitError::NotARepository))
            );
        }
    }
}

#[test]
fn other_failure_of_the_tool_carries_stderr() {
    let c = Command::diff(None, true);
    assert_eq!(
        step(&ctx("ollama"), &c, Stage::AwaitPatch, captured(Some(1), "", "error: x")),
        failed(CommandError::Git(GitError::CommandFailed("error: x".to_string())))
    );
}

#[test]
fn tool_that_cannot_start_fails_the_command() {
    let c = Command::diff(None, true);
    assert_eq!(
        step(&ctx("ollama"), &c, Stage::AwaitPatch, Event::SpawnFailed("no git".to_string())),
        failed(CommandError::Spawn("no git".to_string()))
    );
    let c = Command::Commit { explain: false, signoff: false, direct: false };
    assert_eq!(
        step(&ctx("ollama"), &c, Stage::AwaitCommit, Event::SpawnFailed("no git".to_string())),
        failed(CommandError::Spawn("no git".to_string()))
    );
}

#[test]
fn successful_backend_call_prints_the_answer() {
    let body = r#"{"message":{"content":"<think>analyzing</think>feat: add parser"}}"#;
    let c = Command::diff(None, true);
    let t = step(
        &ctx("ollama"),
        &c,
        Stage::AwaitExplanation,
        Event::Answered(read_exchange(200, body)),
    );
    assert_eq!(
        t,
        Transition {
            stage: Stage::Done,
            output: strings(&["feat: add parser"]),
            action: Action::Finish,
        }
    );
}

#[test]
fn unknown_platform_runs_on_the_stand_in_backend() {
    let context = ctx("unknown-platform");
    let c = Command::diff(None, true);
    let t = step(&context, &c, Stage::AwaitPatch, captured(Some(0), DIFF, ""));
    let answer = match t.action {
        Action::Ask { backend: ChatBackend::Dummy, model, credential, messages } => {
            dummy_chat_fn(model, credential, messages)
        }
        other => panic!("{:?}", other),
    };
    assert_eq!(answer, Ok("Dummy response.".to_string()));
    assert_eq!(
        step(&context, &c, t.stage, Event::Answered(answer)),
        Transition {
            stage: Stage::Done,
            output: strings(&["Dummy response."]),
            action: Action::Finish,
        }
    );
}

#[test]
fn backend_errors_end_the_command_unchanged() {
    let errors = [
        ChatError::Transport("timed out".to_string()),
        ChatError::HttpStatus(503),
        ChatError::ResponseParse,
        ChatError::ReasoningMarkerMismatch,
    ];
    let c = Command::Commit { explain: true, signoff: false, direct: false };
    for (i, stage) in [Stage::AwaitExplanation, Stage::AwaitMessage].iter().enumerate() {
        for e in errors.iter() {
            let copy = match e {
                ChatError::Transport(s) => ChatError::Transport(s.clone()),
                ChatError::HttpStatus(n) => ChatError::HttpStatus(*n),
                ChatError::ResponseParse => ChatError::ResponseParse,
                ChatError::ReasoningMarkerMismatch => ChatError::ReasoningMarkerMismatch,
            };
            let copy2 = match e {
                ChatError::Transport(s) => ChatError::Transport(s.clone()),
                ChatError::HttpStatus(n) => ChatError::HttpStatus(*n),
                ChatError::ResponseParse => ChatError::ResponseParse,
                ChatError::ReasoningMarkerMismatch => ChatError::ReasoningMarkerMismatch,
            };
            assert_eq!(
                step(&ctx("ollama"), &c, *stage, Event::Answered(Err(copy))),
                failed(CommandError::Chat(copy2)),
                "{}",
                i
            );
        }
    }
}

#[test]
fn commit_without_explain_uses_the_placeholder() {
    let c = Command::Commit { explain: false, signoff: true, direct: false };
    assert_eq!(
        step(&ctx("ollama"), &c, Stage::AwaitPatch, captured(Some(0), DIFF, "")),
        Transition {
            stage: Stage::AwaitCommit,
            output: strings(&[RULE, "Git commit Content", RULE, DIFF]),
            action: Action::RunForeground(strings(&[
                "commit",
                "--signoff",
                "--edit",
                "-m",
                "# Please edit commit message"
            ])),
        }
    );
    assert_eq!(PLACEHOLDER_MESSAGE, "# Please edit commit message");
}

#[test]
fn commit_with_explain_runs_the_whole_pipeline() {
    let context = ctx("ollama");
    let c = Command::Commit { explain: true, signoff: false, direct: true };
    let mut printed: Vec<String> = Vec::new();

    let t = step(&context, &c, Stage::Start, Event::Begin);
    assert_eq!(t.stage, Stage::AwaitPatch);
    printed.extend(t.output);

    let t = step(&context, &c, t.stage, captured(Some(0), DIFF, ""));
    assert_eq!(t.stage, Stage::AwaitExplanation);
    assert_eq!(
        t.action,
        Action::Ask {
            backend: ChatBackend::Ollama,
            model: "deepseek-r1:8b".to_string(),
            credential: "none".to_string(),
            messages: prompt_diff(DIFF.to_string()),
        }
    );
    printed.extend(t.output);

    let first = read_exchange(200, r#"{"message":{"content":"<think>a</think>\nOne file changed.\n"}}"#);
    let t = step(&context, &c, t.stage, Event::Answered(first));
    assert_eq!(t.stage, Stage::AwaitMessage);
    assert_eq!(
        t.action,
        Action::Ask {
            backend: ChatBackend::Ollama,
            model: "deepseek-r1:8b".to_string(),
            credential: "none".to_string(),
            messages: prompt_create_commit_msg("One file changed.".to_string()),
        }
    );
    printed.extend(t.output);

    let second = read_exchange(200, r#"{"message":{"content":"<think>b</think>feat: add parser"}}"#);
    let t = step(&context, &c, t.stage, Event::Answered(second));
    assert_eq!(t.stage, Stage::AwaitCommit);
    assert_eq!(
        t.action,
        Action::RunForeground(strings(&["commit", "-m", "feat: add parser"]))
    );
    printed.extend(t.output);

    let t = step(&context, &c, t.stage, Event::Foreground(true));
    assert_eq!(t, Transition { stage: Stage::Done, output: Vec::new(), action: Action::Finish });

    assert_eq!(
        printed,
        strings(&[
            RULE,
            "Git commit Content",
            RULE,
            DIFF,
            RULE,
            "Explaining...",
            "One file changed.",
            RULE,
            "Generating commit message...\n",
            "feat: add parser",
        ])
    );
}

#[test]
fn failed_commit_fails_the_command() {
    let c = Command::Commit { explain: false, signoff: false, direct: false };
    assert_eq!(
        step(&ctx("ollama"), &c, Stage::AwaitCommit, Event::Foreground(false)),
        failed(CommandError::Git(GitError::CommandFailed("Commit failed".to_string())))
    );
    assert_eq!(after_commit(&c, false).stage, Stage::Failed);
    assert_eq!(after_commit(&c, true).stage, Stage::Done);
}

#[test]
fn events_out_of_turn_end_the_command() {
    let context = ctx("ollama");
    let c = Command::diff(None, true);
    assert_eq!(
        step(&context, &c, Stage::Start, Event::Foreground(true)),
        failed(CommandError::OutOfTurn)
    );
    assert_eq!(
        step(&context, &c, Stage::AwaitPatch, Event::Begin),
        failed(CommandError::OutOfTurn)
    );
    assert_eq!(
        step(&context, &c, Stage::AwaitPatch, Event::Answered(Ok("x".to_string()))),
        failed(CommandError::OutOfTurn)
    );
    assert_eq!(
        step(&context, &c, Stage::AwaitMessage, Event::Answered(Ok("x".to_string()))),
        failed(CommandError::OutOfTurn)
    );
    assert_eq!(
        step(&context, &c, Stage::AwaitCommit, Event::Foreground(true)),
        failed(CommandError::OutOfTurn)
    );
    assert_eq!(step(&context, &c, Stage::Done, Event::Begin), failed(CommandError::OutOfTurn));
    assert_eq!(step(&context, &c, Stage::Failed, Event::Begin), failed(CommandError::OutOfTurn));
    let quiet = Command::diff(None, false);
    assert_eq!(
        step(&context, &quiet, Stage::AwaitExplanation, Event::Answered(Ok("x".to_string()))),
        failed(CommandError::OutOfTurn)
    );
}

#[test]
fn stage_functions_agree_with_step() {
    let context = ctx("ollama");
    let c = Command::Commit { explain: true, signoff: true, direct: false };
    assert_eq!(
        after_patch(&context, &c, Ok(DIFF.to_string())),
        step(&context, &c, Stage::AwaitPatch, captured(Some(0), DIFF, ""))
    );
    assert_eq!(
        after_patch(&context, &c, Err(GitError::NotARepository)),
        failed(CommandError::Git(GitError::NotARepository))
    );
    assert_eq!(
        after_explanation(&context, &c, Ok("e".to_string())),
        step(&context, &c, Stage::AwaitExplanation, Event::Answered(Ok("e".to_string())))
    );
    assert_eq!(
        after_message(&c, Ok("m".to_string())),
        Transition {
            stage: Stage::AwaitCommit,
            output: strings(&["m"]),
            action: Action::RunForeground(strings(&["commit", "--signoff", "--edit", "-m", "m"])),
        }
    );
}

#[test]
fn platform_listing_has_heading_and_names() {
    assert_eq!(platform_listing(), strings(&["Supported Platforms:", "ollama"]));
}

#[test]
fn exit_code_is_zero_or_one() {
    assert_eq!(exit_code(&Ok(())), 0);
    assert_eq!(exit_code(&Err(CommandError::OutOfTurn)), 1);
    assert_eq!(exit_code(&Err(CommandError::Git(GitError::NotARepository))), 1);
}

#[test]
fn context_needs_all_five_settings() {
    let s = |t: &str| Some(t.to_string());
    assert_eq!(
        CommandContext::from_settings(s("ollama"), s("m"), s("k"), s("http://h"), s("1")),
        Ok(CommandContext {
            platform: "ollama".to_string(),
            model: "m".to_string(),
            credential: "k".to_string(),
            base_url: "http://h".to_string(),
            port: "1".to_string(),
        })
    );
    assert_eq!(
        CommandContext::from_settings(None, None, None, None, None),
        Err(MissingSetting::Platform)
    );
    assert_eq!(
        CommandContext::from_settings(s("p"), None, s("k"), None, s("1")),
        Err(MissingSetting::Model)
    );
    assert_eq!(
        CommandContext::from_settings(s("p"), s("m"), None, s("b"), s("1")),
        Err(MissingSetting::ApiKey)
    );
    assert_eq!(
        CommandContext::from_settings(s("p"), s("m"), s("k"), None, None),
        Err(MissingSetting::BaseUrl)
    );
    assert_eq!(
        CommandContext::from_settings(s("p"), s("m"), s("k"), s("b"), None),
        Err(MissingSetting::Port)
    );
    assert_eq!(MissingSetting::ApiKey.key(), "api_key");
    assert_eq!(MissingSetting::BaseUrl.key(), "base_url");
    assert_eq!(MissingSetting::Platform.key(), "platform");
    assert_eq!(MissingSetting::Model.key(), "model");
    assert_eq!(MissingSetting::Port.key(), "port");
}
