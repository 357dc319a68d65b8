//! The command orchestrator.
//!
//! A command runs as a short pipeline: capture a patch, show it, and, on
//! request, have it explained and a commit message worded, then commit. The
//! work outside the process (running the version-control tool, calling the
//! backend) is the caller's. This module decides: `step` takes the stage a
//! command is at and what just happened, and says what to print, what to do
//! next and which stage follows. Nothing is ever tried twice: a failure ends
//! the command.

use vstd::prelude::*;
use vstd::string::*;
use crate::chat::{
    answer_view, get_chat, get_platform_list, messages_view, ChatBackend, ChatError,
    ChatErrorView, ChatMessage, ChatMessageView,
};
use crate::git::{
    captured_outcome, commit_args, commit_args_spec, commit_outcome, diff_args, diff_args_spec,
    foreground_outcome, get_git_res, outcome_view, show_args, show_args_spec, GitError,
    GitErrorView, GitInvocationResult,
};
use crate::prompt::{
    commit_message_prompt, explain_prompt, prompt_create_commit_msg, prompt_diff,
};
use crate::text::texts;

verus! {

/// The line that sets the sections of the output apart.
pub const RULE: &'static str =
    "============================================================================";

/// The revision that is meant where none is named.
pub const DEFAULT_REVISION: &'static str = "HEAD";

/// The commit message that is used where none is generated. It asks the user
/// to write one.
pub const PLACEHOLDER_MESSAGE: &'static str = "# Please edit commit message";

/// The heading of a list of platform names.
pub const PLATFORMS_HEADING: &'static str = "Supported Platforms:";

/// The settings a command runs with. They are read once, before the command
/// starts, and never change while it runs.
#[derive(Debug, PartialEq, Eq)]
pub struct CommandContext {
    pub platform: String,
    pub model: String,
    pub credential: String,
    pub base_url: String,
    pub port: String,
}

/// The settings as mathematical values.
pub struct CommandContextView {
    pub platform: Seq<char>,
    pub model: Seq<char>,
    pub credential: Seq<char>,
    pub base_url: Seq<char>,
    pub port: Seq<char>,
}

impl View for CommandContext {
    type V = CommandContextView;

    open spec fn view(&self) -> CommandContextView {
        CommandContextView {
            platform: self.platform@,
            model: self.model@,
            credential: self.credential@,
            base_url: self.base_url@,
            port: self.port@,
        }
    }
}

/// A setting that the configuration lacks.
#[derive(Clone, Copy, Debug, PartialEq, Eq, Structural)]
pub enum MissingSetting {
    Platform,
    Model,
    ApiKey,
    BaseUrl,
    Port,
}

/// The key under which a setting stands in the configuration.
pub open spec fn setting_key(m: MissingSetting) -> Seq<char> {
    match m {
        MissingSetting::Platform => "platform"@,
        MissingSetting::Model => "model"@,
        MissingSetting::ApiKey => "api_key"@,
        MissingSetting::BaseUrl => "base_url"@,
        MissingSetting::Port => "port"@,
    }
}

impl MissingSetting {
    /// The key under which the setting stands in the configuration.
    pub fn key(&self) -> (k: &'static str)
        ensures
            k@ == setting_key(*self),
    {
        match self {
            MissingSetting::Platform => "platform",
            MissingSetting::Model => "model",
            MissingSetting::ApiKey => "api_key",
            MissingSetting::BaseUrl => "base_url",
            MissingSetting::Port => "port",
        }
    }
}

/// The first setting that is absent, in the order platform, model, key, base
/// address, port.
pub open spec fn first_missing(
    platform: Option<String>,
    model: Option<String>,
    api_key: Option<String>,
    base_url: Option<String>,
    port: Option<String>,
) -> Option<MissingSetting> {
    if platform is None {
        Some(MissingSetting::Platform)
    } else if model is None {
        Some(MissingSetting::Model)
    } else if api_key is None {
        Some(MissingSetting::ApiKey)
    } else if base_url is None {
        Some(MissingSetting::BaseUrl)
    } else if port is None {
        Some(MissingSetting::Port)
    } else {
        None
    }
}

impl CommandContext {
    /// The context made of the five settings, each as the configuration gave
    /// it. All five are required: the first one that is absent is reported.
    pub fn from_settings(
        platform: Option<String>,
        model: Option<String>,
        api_key: Option<String>,
        base_url: Option<String>,
        port: Option<String>,
    ) -> (r: Result<CommandContext, MissingSetting>)
        ensures
            match first_missing(platform, model, api_key, base_url, port) {
                Some(m) => r == Err::<CommandContext, MissingSetting>(m),
                None => r is Ok && r->Ok_0@ == (CommandContextView {
                    platform: platform->0@,
                    model: model->0@,
                    credential: api_key->0@,
                    base_url: base_url->0@,
                    port: port->0@,
                }),
            },
    {
        let platform = match platform {
            Some(s) => s,
            None => {
                return Err(MissingSetting::Platform);
            },
        };
        let model = match model {
            Some(s) => s,
            None => {
                return Err(MissingSetting::Model);
            },
        };
        let credential = match api_key {
            Some(s) => s,
            None => {
                return Err(MissingSetting::ApiKey);
            },
        };
        let base_url = match base_url {
            Some(s) => s,
            None => {
                return Err(MissingSetting::BaseUrl);
            },
        };
        let port = match port {
            Some(s) => s,
            None => {
                return Err(MissingSetting::Port);
            },
        };
        Ok(CommandContext { platform, model, credential, base_url, port })
    }
}

/// What the user asked for.
#[derive(Debug, PartialEq, Eq)]
pub enum Command {
    /// Show the changes against `index`, and explain them if `explain`.
    Diff { index: String, explain: bool },
    /// Show the commit `hash`, and explain it if `explain`.
    Show { hash: String, explain: bool },
    /// Commit the staged changes. With `explain` the changes are explained and
    /// a message is generated from the explanation; `signoff` signs the commit
    /// off; unless `direct`, the message is opened in the editor first.
    Commit { explain: bool, signoff: bool, direct: bool },
    /// List commits. Does nothing.
    List { number: Option<u32>, explain: bool },
}

/// A command as a mathematical value.
pub enum CommandView {
    Diff { index: Seq<char>, explain: bool },
    Show { hash: Seq<char>, explain: bool },
    Commit { explain: bool, signoff: bool, direct: bool },
    List { number: Option<u32>, explain: bool },
}

impl View for Command {
    type V = CommandView;

    open spec fn view(&self) -> CommandView {
        match self {
            Command::Diff { index, explain } => CommandView::Diff {
                index: index@,
                explain: *explain,
            },
            Command::Show { hash, explain } => CommandView::Show { hash: hash@, explain: *explain },
            Command::Commit { explain, signoff, direct } => CommandView::Commit {
                explain: *explain,
                signoff: *signoff,
                direct: *direct,
            },
            Command::List { number, explain } => CommandView::List {
                number: *number,
                explain: *explain,
            },
        }
    }
}

/// The revision that is meant: the one named, or the default.
pub open spec fn revision_or_default(revision: Option<String>) -> Seq<char> {
    match revision {
        Some(r) => r@,
        None => DEFAULT_REVISION@,
    }
}

impl Command {
    /// The command that shows the changes against `index`, or against the
    /// default revision where none is named.
    pub fn diff(index: Option<String>, explain: bool) -> (c: Command)
        ensures
            c@ == (CommandView::Diff { index: revision_or_default(index), explain }),
    {
        let index = match index {
            Some(r) => r,
            None => DEFAULT_REVISION.to_owned(),
        };
        Command::Diff { index, explain }
    }

    /// The command that shows the commit `hash`, or the default revision
    /// where none is named.
    pub fn show(hash: Option<String>, explain: bool) -> (c: Command)
        ensures
            c@ == (CommandView::Show { hash: revision_or_default(hash), explain }),
    {
        let hash = match hash {
            Some(r) => r,
            None => DEFAULT_REVISION.to_owned(),
        };
        Command::Show { hash, explain }
    }

    /// Whether the command asks for an explanation.
    pub fn explain(&self) -> (b: bool)
        ensures
            b == wants_explanation(self@),
    {
        match self {
            Command::Diff { explain, .. } => *explain,
            Command::Show { explain, .. } => *explain,
            Command::Commit { explain, .. } => *explain,
            Command::List { explain, .. } => *explain,
        }
    }
}

/// Where a command stands.
#[derive(Clone, Copy, Debug, PartialEq, Eq, Structural)]
pub enum Stage {
    /// Nothing has happened yet.
    Start,
    /// The tool is running to capture the patch.
    AwaitPatch,
    /// The backend has been asked to explain the patch.
    AwaitExplanation,
    /// The backend has been asked to word the commit message.
    AwaitMessage,
    /// The tool is committing in the foreground.
    AwaitCommit,
    /// The command has ended well.
    Done,
    /// The command has ended on an error.
    Failed,
}

/// What just happened outside.
#[derive(Debug, PartialEq, Eq)]
pub enum Event {
    /// The command is to start.
    Begin,
    /// The tool has ended and its output was captured.
    Captured(GitInvocationResult),
    /// The tool could not be started; the text says why.
    SpawnFailed(String),
    /// The call to the backend has ended.
    Answered(Result<String, ChatError>),
    /// The tool has ended in the foreground, well or not.
    Foreground(bool),
}

/// An event as a mathematical value.
pub enum EventView {
    Begin,
    Captured { exit_status: Option<i32>, stdout_text: Seq<char>, stderr_text: Seq<char> },
    SpawnFailed(Seq<char>),
    Answered(Result<Seq<char>, ChatErrorView>),
    Foreground(bool),
}

impl View for Event {
    type V = EventView;

    open spec fn view(&self) -> EventView {
        match self {
            Event::Begin => EventView::Begin,
            Event::Captured(res) => EventView::Captured {
                exit_status: res.exit_status,
                stdout_text: res.stdout_text@,
                stderr_text: res.stderr_text@,
            },
            Event::SpawnFailed(why) => EventView::SpawnFailed(why@),
            Event::Answered(r) => EventView::Answered(answer_view(*r)),
            Event::Foreground(success) => EventView::Foreground(*success),
        }
    }
}

/// Why a command ended on an error.
#[derive(Debug, PartialEq, Eq)]
pub enum CommandError {
    /// The version-control tool failed.
    Git(GitError),
    /// The backend gave no answer.
    Chat(ChatError),
    /// The version-control tool could not be started.
    Spawn(String),
    /// Something happened that the stage of the command does not wait for.
    OutOfTurn,
}

/// An error as a mathematical value.
pub enum CommandErrorView {
    Git(GitErrorView),
    Chat(ChatErrorView),
    Spawn(Seq<char>),
    OutOfTurn,
}

impl View for CommandError {
    type V = CommandErrorView;

    open spec fn view(&self) -> CommandErrorView {
        match self {
            CommandError::Git(e) => CommandErrorView::Git(e@),
            CommandError::Chat(e) => CommandErrorView::Chat(e@),
            CommandError::Spawn(why) => CommandErrorView::Spawn(why@),
            CommandError::OutOfTurn => CommandErrorView::OutOfTurn,
        }
    }
}

/// What to do next.
#[derive(Debug, PartialEq, Eq)]
pub enum Action {
    /// Run the tool with these arguments and capture what it writes.
    RunCaptured(Vec<String>),
    /// Run the tool with these arguments in the foreground, on the terminal of
    /// the user. Only whether it succeeds is of interest.
    RunForeground(Vec<String>),
    /// Invoke this backend with this model, credential and conversation.
    Ask { backend: ChatBackend, model: String, credential: String, messages: Vec<ChatMessage> },
    /// Stop: the command has ended well.
    Finish,
    /// Stop: the command has ended on this error.
    Fail(CommandError),
}

/// An action as a mathematical value.
pub enum ActionView {
    RunCaptured(Seq<Seq<char>>),
    RunForeground(Seq<Seq<char>>),
    Ask {
        backend: ChatBackend,
        model: Seq<char>,
        credential: Seq<char>,
        messages: Seq<ChatMessageView>,
    },
    Finish,
    Fail(CommandErrorView),
}

impl View for Action {
    type V = ActionView;

    open spec fn view(&self) -> ActionView {
        match self {
            Action::RunCaptured(args) => ActionView::RunCaptured(texts(args@)),
            Action::RunForeground(args) => ActionView::RunForeground(texts(args@)),
            Action::Ask { backend, model, credential, messages } => ActionView::Ask {
                backend: *backend,
                model: model@,
                credential: credential@,
                messages: messages_view(messages@),
            },
            Action::Finish => ActionView::Finish,
            Action::Fail(e) => ActionView::Fail(e@),
        }
    }
}

/// The answer of `step`: the stage that follows, the lines to print, in
/// order, and what to do next.
#[derive(Debug, PartialEq, Eq)]
pub struct Transition {
    pub stage: Stage,
    pub output: Vec<String>,
    pub action: Action,
}

/// A transition as a mathematical value.
pub struct TransitionView {
    pub stage: Stage,
    pub output: Seq<Seq<char>>,
    pub action: ActionView,
}

impl View for Transition {
    type V = TransitionView;

    open spec fn view(&self) -> TransitionView {
        TransitionView { stage: self.stage, output: texts(self.output@), action: self.action@ }
    }
}

/// Whether the command asks for an explanation.
pub open spec fn wants_explanation(c: CommandView) -> bool {
    match c {
        CommandView::Diff { explain, .. } => explain,
        CommandView::Show { explain, .. } => explain,
        CommandView::Commit { explain, .. } => explain,
        CommandView::List { explain, .. } => explain,
    }
}

/// The heading under which the patch of a command is printed.
pub open spec fn patch_title(c: CommandView) -> Seq<char> {
    match c {
        CommandView::Diff { .. } => "Git Diff Content"@,
        CommandView::Show { .. } => "Git Show Content"@,
        _ => "Git commit Content"@,
    }
}

/// The line that announces the explanation.
pub open spec fn explaining_line(c: CommandView) -> Seq<char> {
    match c {
        CommandView::Commit { .. } => "Explaining..."@,
        _ => "Explaining...\n"@,
    }
}

/// The backend that the platform of the settings stands for.
pub open spec fn backend_of(platform: Seq<char>) -> ChatBackend {
    if platform == "ollama"@ {
        ChatBackend::Ollama
    } else {
        ChatBackend::Dummy
    }
}

/// The invocation of the backend of the settings, with their model and
/// credential, on `messages`.
pub open spec fn asks(ctx: CommandContextView, messages: Seq<ChatMessageView>) -> ActionView {
    ActionView::Ask {
        backend: backend_of(ctx.platform),
        model: ctx.model,
        credential: ctx.credential,
        messages,
    }
}

/// The transition that ends a command on `e`, with nothing to print.
pub open spec fn fails(e: CommandErrorView) -> TransitionView {
    TransitionView {
        stage: Stage::Failed,
        output: Seq::<Seq<char>>::empty(),
        action: ActionView::Fail(e),
    }
}

/// The transition that ends a command well after printing `output`.
pub open spec fn finishes(output: Seq<Seq<char>>) -> TransitionView {
    TransitionView { stage: Stage::Done, output, action: ActionView::Finish }
}

/// The transition that commits with `message` after printing `output`.
pub open spec fn commits(signoff: bool, direct: bool, output: Seq<Seq<char>>, message: Seq<char>) -> TransitionView {
    TransitionView {
        stage: Stage::AwaitCommit,
        output,
        action: ActionView::RunForeground(commit_args_spec(signoff, direct, message)),
    }
}

/// How a command starts: by capturing its patch. `Diff` takes the changes
/// against its index, `Show` the commit, `Commit` the staged changes against
/// the default revision. `List` ends at once.
pub open spec fn begin_spec(c: CommandView) -> TransitionView {
    match c {
        CommandView::Diff { index, .. } => TransitionView {
            stage: Stage::AwaitPatch,
            output: Seq::<Seq<char>>::empty(),
            action: ActionView::RunCaptured(diff_args_spec(index, false)),
        },
        CommandView::Show { hash, .. } => TransitionView {
            stage: Stage::AwaitPatch,
            output: Seq::<Seq<char>>::empty(),
            action: ActionView::RunCaptured(show_args_spec(hash)),
        },
        CommandView::Commit { .. } => TransitionView {
            stage: Stage::AwaitPatch,
            output: Seq::<Seq<char>>::empty(),
            action: ActionView::RunCaptured(diff_args_spec(DEFAULT_REVISION@, true)),
        },
        CommandView::List { .. } => finishes(Seq::<Seq<char>>::empty()),
    }
}

/// What follows the capture of the patch. A failure of the tool ends the
/// command. Otherwise the patch is printed under its heading. Then, with
/// `explain`, the backend is asked to explain it; without, `Diff` and `Show`
/// are done and `Commit` commits with the placeholder message.
pub open spec fn patch_spec(
    ctx: CommandContextView,
    c: CommandView,
    patch: Result<Seq<char>, GitErrorView>,
) -> TransitionView {
    match patch {
        Err(e) => fails(CommandErrorView::Git(e)),
        Ok(text) => {
            let shown = seq![RULE@, patch_title(c), RULE@, text];
            if c is List {
                fails(CommandErrorView::OutOfTurn)
            } else if wants_explanation(c) {
                TransitionView {
                    stage: Stage::AwaitExplanation,
                    output: shown + seq![RULE@, explaining_line(c)],
                    action: asks(ctx, explain_prompt(text)),
                }
            } else if c is Commit {
                commits(c->Commit_signoff, c->Commit_direct, shown, PLACEHOLDER_MESSAGE@)
            } else {
                finishes(shown)
            }
        },
    }
}

/// What follows the explanation. An error of the backend ends the command.
/// Otherwise the explanation is printed; `Diff` and `Show` are done, and
/// `Commit` asks the backend to word a message from the explanation.
pub open spec fn explained_spec(
    ctx: CommandContextView,
    c: CommandView,
    answer: Result<Seq<char>, ChatErrorView>,
) -> TransitionView {
    if c is List || !wants_explanation(c) {
        fails(CommandErrorView::OutOfTurn)
    } else {
        match answer {
            Err(e) => fails(CommandErrorView::Chat(e)),
            Ok(explanation) => if c is Commit {
                TransitionView {
                    stage: Stage::AwaitMessage,
                    output: seq![explanation, RULE@, "Generating commit message...\n"@],
                    action: asks(ctx, commit_message_prompt(explanation)),
                }
            } else {
                finishes(seq![explanation])
            },
        }
    }
}

/// What follows the wording of the message: it is printed and the commit is
/// made with it. An error of the backend ends the command.
pub open spec fn worded_spec(c: CommandView, answer: Result<Seq<char>, ChatErrorView>) -> TransitionView {
    if !(c is Commit) || !wants_explanation(c) {
        fails(CommandErrorView::OutOfTurn)
    } else {
        match answer {
            Err(e) => fails(CommandErrorView::Chat(e)),
            Ok(message) => commits(c->Commit_signoff, c->Commit_direct, seq![message], message),
        }
    }
}

/// What follows the commit: the command is done if the tool succeeded, and
/// has failed otherwise.
pub open spec fn committed_spec(c: CommandView, success: bool) -> TransitionView {
    if !(c is Commit) {
        fails(CommandErrorView::OutOfTurn)
    } else {
        match foreground_outcome(success) {
            Ok(_) => finishes(Seq::<Seq<char>>::empty()),
            Err(e) => fails(CommandErrorView::Git(e)),
        }
    }
}

/// The transition of command `c`, run with the settings `ctx`, from `stage` on `e`.
/// An event that the stage does not wait for ends the command.
pub open spec fn step_spec(ctx: CommandContextView, c: CommandView, stage: Stage, e: EventView) -> TransitionView {
    match (stage, e) {
        (Stage::Start, EventView::Begin) => begin_spec(c),
        (Stage::AwaitPatch, EventView::Captured { exit_status, stdout_text, stderr_text }) => patch_spec(
            ctx,
            c,
            captured_outcome(exit_status, stdout_text, stderr_text),
        ),
        (Stage::AwaitPatch, EventView::SpawnFailed(why)) => fails(CommandErrorView::Spawn(why)),
        (Stage::AwaitExplanation, EventView::Answered(answer)) => explained_spec(
            ctx,
            c,
            answer,
        ),
        (Stage::AwaitMessage, EventView::Answered(answer)) => worded_spec(c, answer),
        (Stage::AwaitCommit, EventView::Foreground(success)) => committed_spec(c, success),
        (Stage::AwaitCommit, EventView::SpawnFailed(why)) => fails(CommandErrorView::Spawn(why)),
        _ => fails(CommandErrorView::OutOfTurn),
    }
}

/// A tool that ends with status 128 while the patch is awaited ends the
/// command on "no repository", whatever the command is and whatever the tool
/// wrote.
pub proof fn lemma_no_repository(
    ctx: CommandContextView,
    c: CommandView,
    stdout_text: Seq<char>,
    stderr_text: Seq<char>,
)
    ensures
        step_spec(
            ctx,
            c,
            Stage::AwaitPatch,
            EventView::Captured { exit_status: Some(128i32), stdout_text, stderr_text },
        ) == fails(CommandErrorView::Git(GitErrorView::NotARepository)),
{
}

/// Nothing is tried again: a command that has ended, well or not, takes no
/// further event, and every failure leads to the stage `Failed`.
pub proof fn lemma_no_retry(ctx: CommandContextView, c: CommandView, stage: Stage, e: EventView)
    ensures
        stage == Stage::Done || stage == Stage::Failed ==> step_spec(ctx, c, stage, e) == fails(
            CommandErrorView::OutOfTurn,
        ),
        step_spec(ctx, c, stage, e).action is Fail <==> step_spec(ctx, c, stage, e).stage
            == Stage::Failed,
        step_spec(ctx, c, stage, e).action is Finish <==> step_spec(ctx, c, stage, e).stage
            == Stage::Done,
{
}

/// A commit without explanation is made with the placeholder message, right
/// after the staged changes were shown, and the backend is never asked.
pub proof fn lemma_commit_without_explanation(
    ctx: CommandContextView,
    signoff: bool,
    direct: bool,
    patch: Seq<char>,
)
    ensures
        patch_spec(
            ctx,
            CommandView::Commit { explain: false, signoff, direct },
            Ok::<Seq<char>, GitErrorView>(patch),
        ).action == ActionView::RunForeground(
            commit_args_spec(signoff, direct, PLACEHOLDER_MESSAGE@),
        ),
{
}

/// A commit with explanation calls the backend twice, one call after the
/// other: the second conversation is built from the answer to the first, and
/// the commit is made with the answer to the second.
pub proof fn lemma_commit_with_explanation(
    ctx: CommandContextView,
    signoff: bool,
    direct: bool,
    patch: Seq<char>,
    explanation: Seq<char>,
    message: Seq<char>,
)
    ensures
        ({
            let c = CommandView::Commit { explain: true, signoff, direct };
            let first = patch_spec(ctx, c, Ok::<Seq<char>, GitErrorView>(patch));
            let second = explained_spec(ctx, c, Ok::<Seq<char>, ChatErrorView>(explanation));
            let third = worded_spec(c, Ok::<Seq<char>, ChatErrorView>(message));
            &&& first.stage == Stage::AwaitExplanation
            &&& first.action == asks(ctx, explain_prompt(patch))
            &&& second.stage == Stage::AwaitMessage
            &&& second.action == asks(ctx, commit_message_prompt(explanation))
            &&& third.stage == Stage::AwaitCommit
            &&& third.action == ActionView::RunForeground(
                commit_args_spec(signoff, direct, message),
            )
        }),
{
}

/// The transition that ends a command on `e`.
fn fail(e: CommandError) -> (t: Transition)
    ensures
        t@ == fails(e@),
{
    let t = Transition { stage: Stage::Failed, output: Vec::new(), action: Action::Fail(e) };
    assert(texts(t.output@) =~= Seq::<Seq<char>>::empty());
    t
}

/// The invocation of the backend of the settings on `messages`.
fn ask(ctx: &CommandContext, messages: Vec<ChatMessage>) -> (a: Action)
    ensures
        a@ == asks(ctx@, messages_view(messages@)),
{
    Action::Ask {
        backend: get_chat(ctx.platform.clone()),
        model: ctx.model.clone(),
        credential: ctx.credential.clone(),
        messages,
    }
}

/// The transition that ends a command well after printing `output`.
fn finish(output: Vec<String>) -> (t: Transition)
    ensures
        t@ == finishes(texts(output@)),
{
    Transition { stage: Stage::Done, output, action: Action::Finish }
}

/// The lines that show a patch under its heading.
fn show_patch(command: &Command, text: &str) -> (lines: Vec<String>)
    ensures
        texts(lines@) == seq![RULE@, patch_title(command@), RULE@, text@],
{
    let title = match command {
        Command::Diff { .. } => "Git Diff Content",
        Command::Show { .. } => "Git Show Content",
        _ => "Git commit Content",
    };
    let mut lines: Vec<String> = Vec::new();
    lines.push(RULE.to_owned());
    lines.push(title.to_owned());
    lines.push(RULE.to_owned());
    lines.push(text.to_owned());
    assert(texts(lines@) =~= seq![RULE@, patch_title(command@), RULE@, text@]);
    lines
}

/// The transition that commits with `message` after printing `output`.
fn commit_with(signoff: bool, direct: bool, output: Vec<String>, message: &str) -> (t: Transition)
    ensures
        t@ == commits(signoff, direct, texts(output@), message@),
{
    Transition {
        stage: Stage::AwaitCommit,
        output,
        action: Action::RunForeground(commit_args(signoff, direct, message)),
    }
}

/// Starts a command.
pub fn begin(command: &Command) -> (t: Transition)
    ensures
        t@ == begin_spec(command@),
{
    let args = match command {
        Command::Diff { index, .. } => diff_args(index.as_str(), false),
        Command::Show { hash, .. } => show_args(hash.as_str()),
        Command::Commit { .. } => diff_args(DEFAULT_REVISION, true),
        Command::List { .. } => {
            let nothing: Vec<String> = Vec::new();
            assert(texts(nothing@) =~= Seq::<Seq<char>>::empty());
            return finish(nothing);
        },
    };
    let t = Transition {
        stage: Stage::AwaitPatch,
        output: Vec::new(),
        action: Action::RunCaptured(args),
    };
    assert(texts(t.output@) =~= Seq::<Seq<char>>::empty());
    t
}

/// Goes on after the patch was captured, or the tool failed.
pub fn after_patch(ctx: &CommandContext, command: &Command, patch: Result<String, GitError>) -> (t:
    Transition)
    ensures
        t@ == patch_spec(ctx@, command@, outcome_view(patch)),
{
    let text = match patch {
        Ok(text) => text,
        Err(e) => {
            return fail(CommandError::Git(e));
        },
    };
    let mut output = show_patch(command, text.as_str());
    match command {
        Command::List { .. } => fail(CommandError::OutOfTurn),
        Command::Commit { explain, signoff, direct } => {
            if *explain {
                ask_to_explain(ctx, command, output, text)
            } else {
                commit_with(*signoff, *direct, output, PLACEHOLDER_MESSAGE)
            }
        },
        _ => {
            if command.explain() {
                ask_to_explain(ctx, command, output, text)
            } else {
                finish(output)
            }
        },
    }
}

/// The transition that asks for an explanation of `text` after printing
/// `shown` and the announcement.
fn ask_to_explain(ctx: &CommandContext, command: &Command, shown: Vec<String>, text: String) -> (t:
    Transition)
    ensures
        t@ == (TransitionView {
            stage: Stage::AwaitExplanation,
            output: texts(shown@) + seq![RULE@, explaining_line(command@)],
            action: asks(ctx@, explain_prompt(text@)),
        }),
{
    let line = match command {
        Command::Commit { .. } => "Explaining...",
        _ => "Explaining...\n",
    };
    let mut output = shown;
    output.push(RULE.to_owned());
    output.push(line.to_owned());
    assert(texts(output@) =~= texts(shown@) + seq![RULE@, explaining_line(command@)]);
    Transition {
        stage: Stage::AwaitExplanation,
        output,
        action: ask(ctx, prompt_diff(text)),
    }
}

/// Goes on after the backend was asked for an explanation.
pub fn after_explanation(
    ctx: &CommandContext,
    command: &Command,
    answer: Result<String, ChatError>,
) -> (t: Transition)
    ensures
        t@ == explained_spec(ctx@, command@, answer_view(answer)),
{
    if !command.explain() {
        return fail(CommandError::OutOfTurn);
    }
    if let Command::List { .. } = command {
        return fail(CommandError::OutOfTurn);
    }
    let explanation = match answer {
        Ok(text) => text,
        Err(e) => {
            return fail(CommandError::Chat(e));
        },
    };
    let mut output: Vec<String> = Vec::new();
    output.push(explanation.clone());
    match command {
        Command::Commit { .. } => {
            output.push(RULE.to_owned());
            output.push("Generating commit message...\n".to_owned());
            assert(texts(output@) =~= seq![
                explanation@,
                RULE@,
                "Generating commit message...\n"@,
            ]);
            Transition {
                stage: Stage::AwaitMessage,
                output,
                action: ask(ctx, prompt_create_commit_msg(explanation)),
            }
        },
        _ => {
            assert(texts(output@) =~= seq![explanation@]);
            finish(output)
        },
    }
}

/// Goes on after the backend was asked to word the commit message.
pub fn after_message(command: &Command, answer: Result<String, ChatError>) -> (t: Transition)
    ensures
        t@ == worded_spec(command@, answer_view(answer)),
{
    match command {
        Command::Commit { explain, signoff, direct } => {
            if !*explain {
                return fail(CommandError::OutOfTurn);
            }
            match answer {
                Err(e) => fail(CommandError::Chat(e)),
                Ok(message) => {
                    let mut output: Vec<String> = Vec::new();
                    output.push(message.clone());
                    assert(texts(output@) =~= seq![message@]);
                    commit_with(*signoff, *direct, output, message.as_str())
                },
            }
        },
        _ => fail(CommandError::OutOfTurn),
    }
}

/// Goes on after the commit ran in the foreground.
pub fn after_commit(command: &Command, success: bool) -> (t: Transition)
    ensures
        t@ == committed_spec(command@, success),
{
    match command {
        Command::Commit { .. } => match commit_outcome(success) {
            Ok(_) => {
                let nothing: Vec<String> = Vec::new();
                assert(texts(nothing@) =~= Seq::<Seq<char>>::empty());
                finish(nothing)
            },
            Err(e) => fail(CommandError::Git(e)),
        },
        _ => fail(CommandError::OutOfTurn),
    }
}

/// One step of a command: given the stage it is at and what just happened,
/// the lines to print, what to do next, and the stage that follows.
pub fn step(ctx: &CommandContext, command: &Command, stage: Stage, event: Event) -> (t: Transition)
    ensures
        t@ == step_spec(ctx@, command@, stage, event@),
{
    match stage {
        Stage::Start => match event {
            Event::Begin => begin(command),
            _ => fail(CommandError::OutOfTurn),
        },
        Stage::AwaitPatch => match event {
            Event::Captured(result) => after_patch(ctx, command, get_git_res(result)),
            Event::SpawnFailed(why) => fail(CommandError::Spawn(why)),
            _ => fail(CommandError::OutOfTurn),
        },
        Stage::AwaitExplanation => match event {
            Event::Answered(answer) => after_explanation(ctx, command, answer),
            _ => fail(CommandError::OutOfTurn),
        },
        Stage::AwaitMessage => match event {
            Event::Answered(answer) => after_message(command, answer),
            _ => fail(CommandError::OutOfTurn),
        },
        Stage::AwaitCommit => match event {
            Event::Foreground(success) => after_commit(command, success),
            Event::SpawnFailed(why) => fail(CommandError::Spawn(why)),
            _ => fail(CommandError::OutOfTurn),
        },
        _ => fail(CommandError::OutOfTurn),
    }
}

/// A command that does nothing: listing commits is not provided.
pub fn handle_list(_number: Option<u32>, _explain: bool) -> (r: Result<(), CommandError>)
    ensures
        r is Ok,
{
    Ok(())
}

/// The lines that list the platforms: the heading, then each registered name
/// in the order of registration.
pub fn platform_listing() -> (lines: Vec<String>)
    ensures
        texts(lines@) == seq![PLATFORMS_HEADING@, "ollama"@],
{
    let names = get_platform_list();
    let n: usize = names.len();
    let mut lines: Vec<String> = Vec::new();
    lines.push(PLATFORMS_HEADING.to_owned());
    let mut i: usize = 0;
    while i < n
        invariant
            n == names.len(),
            i <= n,
            lines.len() == i + 1,
            lines@[0]@ == PLATFORMS_HEADING@,
            forall|j: int| 0 <= j < i ==> lines@[j + 1]@ == names@[j]@,
        decreases n - i,
    {
        lines.push(names[i].clone());
        i += 1;
    }
    assert(texts(names@).len() == 1);
    assert(texts(names@)[0] == "ollama"@);
    assert(texts(lines@) =~= seq![PLATFORMS_HEADING@, "ollama"@]);
    lines
}

/// The exit status of the process: 0 where the command ended well, 1 where
/// it ended on an error.
pub fn exit_code(result: &Result<(), CommandError>) -> (code: i32)
    ensures
        code == if result is Ok {
            0i32
        } else {
            1i32
        },
{
    match result {
        Ok(_) => 0,
        Err(_) => 1,
    }
}

} // verus!
