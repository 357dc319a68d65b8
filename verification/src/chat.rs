//! The provider-agnostic chat layer: messages, requests, errors, and the
//! registry that maps a platform name to a backend.

use vstd::prelude::*;
use vstd::string::*;
use crate::text::{same_text, texts};

verus! {

/// The speaker of one turn of a conversation.
#[derive(Clone, Copy, Debug, PartialEq, Eq, Structural)]
pub enum Role {
    System,
    User,
    Assistant,
}

/// The name of a role as it travels in a request.
pub open spec fn role_name(role: Role) -> Seq<char> {
    match role {
        Role::System => "system"@,
        Role::User => "user"@,
        Role::Assistant => "assistant"@,
    }
}

impl Role {
    /// The name of the role as it travels in a request.
    pub fn wire_name(&self) -> (name: &'static str)
        ensures
            name@ == role_name(*self),
    {
        match self {
            Role::System => "system",
            Role::User => "user",
            Role::Assistant => "assistant",
        }
    }

    /// The role that travels under `name`, if `name` is one of the three.
    pub fn from_wire(name: &str) -> (role: Option<Role>)
        ensures
            match role {
                Some(r) => name@ == role_name(r),
                None => forall|r: Role| name@ != role_name(r),
            },
    {
        proof {
            reveal_strlit("system");
            reveal_strlit("user");
            reveal_strlit("assistant");
        }
        if same_text(name, "system") {
            Some(Role::System)
        } else if same_text(name, "user") {
            Some(Role::User)
        } else if same_text(name, "assistant") {
            Some(Role::Assistant)
        } else {
            None
        }
    }
}

/// The three role names differ, so a name stands for at most one role.
pub proof fn lemma_role_names_differ(a: Role, b: Role)
    ensures
        role_name(a) == role_name(b) <==> a == b,
{
    reveal_strlit("system");
    reveal_strlit("user");
    reveal_strlit("assistant");
    if a != b {
        assert(role_name(a).len() != role_name(b).len());
    }
}

/// One turn of a conversation.
#[derive(Debug, PartialEq, Eq)]
pub struct ChatMessage {
    pub role: Role,
    pub content: String,
}

/// A message as a mathematical value.
pub struct ChatMessageView {
    pub role: Role,
    pub content: Seq<char>,
}

impl View for ChatMessage {
    type V = ChatMessageView;

    open spec fn view(&self) -> ChatMessageView {
        ChatMessageView { role: self.role, content: self.content@ }
    }
}

/// The views of a sequence of messages, in order.
pub open spec fn messages_view(msgs: Seq<ChatMessage>) -> Seq<ChatMessageView> {
    msgs.map_values(|m: ChatMessage| m@)
}

impl ChatMessage {
    /// A message of `role` that says `content`.
    pub fn new(role: Role, content: String) -> (m: ChatMessage)
        ensures
            m@ == (ChatMessageView { role, content: content@ }),
    {
        ChatMessage { role, content }
    }
}

/// What is sent to a backend: a model, the conversation so far, and whether
/// the reply is to be streamed.
#[derive(Debug, PartialEq, Eq)]
pub struct ChatRequest {
    pub model: String,
    pub messages: Vec<ChatMessage>,
    pub stream: bool,
}

impl ChatRequest {
    /// The request for one complete reply of `model` to `messages`. The caller
    /// waits for the whole reply, so nothing is streamed.
    pub fn new(model: String, messages: Vec<ChatMessage>) -> (req: ChatRequest)
        ensures
            req.model@ == model@,
            req.messages@ == messages@,
            !req.stream,
    {
        ChatRequest { model, messages, stream: false }
    }
}

/// Why a call to a backend gave no answer.
#[derive(Debug, PartialEq, Eq)]
pub enum ChatError {
    /// The backend could not be reached, or did not reply in time.
    Transport(String),
    /// The backend replied with a status outside 200..=299.
    HttpStatus(u16),
    /// The reply body is not a document that holds a message content.
    ResponseParse,
    /// The reply opens a reasoning segment and never closes it.
    ReasoningMarkerMismatch,
}

/// An error as a mathematical value.
pub enum ChatErrorView {
    Transport(Seq<char>),
    HttpStatus(u16),
    ResponseParse,
    ReasoningMarkerMismatch,
}

impl View for ChatError {
    type V = ChatErrorView;

    open spec fn view(&self) -> ChatErrorView {
        match self {
            ChatError::Transport(s) => ChatErrorView::Transport(s@),
            ChatError::HttpStatus(code) => ChatErrorView::HttpStatus(*code),
            ChatError::ResponseParse => ChatErrorView::ResponseParse,
            ChatError::ReasoningMarkerMismatch => ChatErrorView::ReasoningMarkerMismatch,
        }
    }
}

/// The view of the outcome of a call to a backend.
pub open spec fn answer_view(r: Result<String, ChatError>) -> Result<Seq<char>, ChatErrorView> {
    match r {
        Ok(s) => Ok(s@),
        Err(e) => Err(e@),
    }
}

/// The backends a platform name can stand for.
#[derive(Clone, Copy, Debug, PartialEq, Eq, Structural)]
pub enum ChatBackend {
    /// A chat service that speaks the Ollama protocol over HTTP.
    Ollama,
    /// The stand-in for a platform that is not registered: it answers with a
    /// fixed text and calls nobody.
    Dummy,
}

/// One line of the registry.
#[derive(Debug, PartialEq, Eq)]
pub struct BackendEntry {
    pub platform_name: String,
    pub backend: ChatBackend,
}

/// The answer of the stand-in backend.
pub const DUMMY_ANSWER: &'static str = "Dummy response.";

/// What the stand-in backend tells the user when it is called.
pub const DUMMY_NOTICE: &'static str =
    "Dummy chat function called. Please specify the legal platform name.";

/// The stand-in backend: whatever it is asked, it succeeds with the fixed
/// answer.
pub fn dummy_chat_fn(_model: String, _api_key: String, _msgs: Vec<ChatMessage>) -> (r: Result<
    String,
    ChatError,
>)
    ensures
        answer_view(r) == Ok::<Seq<char>, ChatErrorView>("Dummy response."@),
{
    Ok(DUMMY_ANSWER.to_owned())
}

/// The platform names of `entries`, in order.
pub open spec fn entry_names(entries: Seq<BackendEntry>) -> Seq<Seq<char>> {
    entries.map_values(|e: BackendEntry| e.platform_name@)
}

/// Entry `i` is the first of `entries` that is named `name`.
pub open spec fn is_first_named(entries: Seq<BackendEntry>, name: Seq<char>, i: int) -> bool {
    &&& 0 <= i < entries.len()
    &&& entries[i].platform_name@ == name
    &&& forall|j: int| 0 <= j < i ==> entries[j].platform_name@ != name
}

/// No entry is named `name`.
pub open spec fn unnamed(entries: Seq<BackendEntry>, name: Seq<char>) -> bool {
    forall|j: int| 0 <= j < entries.len() ==> entries[j].platform_name@ != name
}

/// The backend that `name` stands for among `entries`: that of the first entry
/// of that name, and the stand-in where there is none.
pub open spec fn resolve(entries: Seq<BackendEntry>, name: Seq<char>) -> ChatBackend {
    if exists|i: int| is_first_named(entries, name, i) {
        entries[choose|i: int| is_first_named(entries, name, i)].backend
    } else {
        ChatBackend::Dummy
    }
}

/// The first entry of a name decides what the name stands for.
pub proof fn lemma_resolve_first(entries: Seq<BackendEntry>, name: Seq<char>, i: int)
    requires
        is_first_named(entries, name, i),
    ensures
        resolve(entries, name) == entries[i].backend,
{
    let k = choose|k: int| is_first_named(entries, name, k);
    assert(is_first_named(entries, name, k));
    if k < i {
        assert(entries[k].platform_name@ != name);
    } else if i < k {
        assert(entries[i].platform_name@ != name);
    }
}

/// A name that no entry bears stands for the stand-in backend.
pub proof fn lemma_resolve_unknown(entries: Seq<BackendEntry>, name: Seq<char>)
    requires
        unnamed(entries, name),
    ensures
        resolve(entries, name) == ChatBackend::Dummy,
{
    if exists|i: int| is_first_named(entries, name, i) {
        let k = choose|k: int| is_first_named(entries, name, k);
        assert(entries[k].platform_name@ != name);
    }
}

/// An ordered list of backends by platform name. Names may repeat: the first
/// entry of a name is the one that counts.
#[derive(Debug, PartialEq, Eq)]
pub struct Registry {
    pub entries: Vec<BackendEntry>,
}

/// The entries every process starts with.
pub open spec fn standard_entries(entries: Seq<BackendEntry>) -> bool {
    &&& entries.len() == 1
    &&& entries[0].platform_name@ == "ollama"@
    &&& entries[0].backend == ChatBackend::Ollama
}

impl Registry {
    /// The registry every process starts with.
    pub fn standard() -> (reg: Registry)
        ensures
            standard_entries(reg.entries@),
    {
        let mut entries: Vec<BackendEntry> = Vec::new();
        entries.push(
            BackendEntry { platform_name: "ollama".to_owned(), backend: ChatBackend::Ollama },
        );
        Registry { entries }
    }

    /// The backend that `platform_name` stands for. An unknown name is no
    /// error: it stands for the stand-in backend.
    pub fn resolve(&self, platform_name: &str) -> (backend: ChatBackend)
        ensures
            backend == resolve(self.entries@, platform_name@),
    {
        let n: usize = self.entries.len();
        let mut i: usize = 0;
        while i < n
            invariant
                n == self.entries.len(),
                i <= n,
                forall|j: int| 0 <= j < i ==> self.entries@[j].platform_name@ != platform_name@,
            decreases n - i,
        {
            if same_text(self.entries[i].platform_name.as_str(), platform_name) {
                proof {
                    lemma_resolve_first(self.entries@, platform_name@, i as int);
                }
                return self.entries[i].backend;
            }
            i += 1;
        }
        proof {
            lemma_resolve_unknown(self.entries@, platform_name@);
        }
        ChatBackend::Dummy
    }

    /// The registered platform names, in the order of registration. A name
    /// that is registered twice is listed twice.
    pub fn list_platforms(&self) -> (names: Vec<String>)
        ensures
            texts(names@) == entry_names(self.entries@),
    {
        let n: usize = self.entries.len();
        let mut names: Vec<String> = Vec::new();
        let mut i: usize = 0;
        while i < n
            invariant
                n == self.entries.len(),
                i <= n,
                names.len() == i,
                forall|j: int| 0 <= j < i ==> names@[j]@ == self.entries@[j].platform_name@,
            decreases n - i,
        {
            names.push(self.entries[i].platform_name.clone());
            i += 1;
        }
        assert(texts(names@) =~= entry_names(self.entries@));
        names
    }
}

/// The backend that `platform` stands for in the standard registry: the
/// Ollama backend for `ollama`, the stand-in for every other name.
pub fn get_chat(platform: String) -> (backend: ChatBackend)
    ensures
        backend == if platform@ == "ollama"@ {
            ChatBackend::Ollama
        } else {
            ChatBackend::Dummy
        },
{
    let reg = Registry::standard();
    proof {
        if platform@ == "ollama"@ {
            lemma_resolve_first(reg.entries@, platform@, 0);
        } else {
            lemma_resolve_unknown(reg.entries@, platform@);
        }
    }
    reg.resolve(platform.as_str())
}

/// The platform names of the standard registry, in the order of registration.
pub fn get_platform_list() -> (names: Vec<String>)
    ensures
        texts(names@) == seq!["ollama"@],
{
    let reg = Registry::standard();
    let names = reg.list_platforms();
    assert(entry_names(reg.entries@) =~= seq!["ollama"@]);
    names
}

} // verus!
