//! The backend that speaks the Ollama chat protocol.
//!
//! The exchange itself is the caller's part: it posts the request to
//! `endpoint` and waits at most `TIMEOUT_SECS`. This module says where to post,
//! what to post, and what the status and the body of the reply amount to.

use vstd::prelude::*;
use vstd::string::*;
use crate::chat::{answer_view, ChatError, ChatErrorView, ChatMessage, ChatRequest};
use crate::json::{document_strings, parse, string_at};
use crate::reasoning::{extract_think_and_answer, split_reasoning};

verus! {

/// How long a reply is waited for, in seconds.
pub const TIMEOUT_SECS: u64 = 300;

/// The path of the chat service below the base address and port.
pub const CHAT_PATH: &'static str = "/api/chat";

/// Where in the reply document the answer of the model stands.
pub const CONTENT_POINTER: &'static str = "/message/content";

/// A complete reply of the service: the message of the model and the
/// bookkeeping that comes with it. Only the content of the message matters
/// to this library.
#[derive(Debug, PartialEq, Eq)]
pub struct OllamaChatResponse {
    pub model: String,
    pub created_at: String,
    pub message: ChatMessage,
    pub done_reason: Option<String>,
    pub done: bool,
    pub total_duration: u64,
    pub load_duration: u64,
    pub prompt_eval_count: u32,
    pub prompt_eval_duration: u64,
    pub eval_count: u32,
    pub eval_duration: u64,
}

/// The address of the chat service at `base_url` and `port`.
pub open spec fn endpoint_spec(base_url: Seq<char>, port: Seq<char>) -> Seq<char> {
    base_url + ":"@ + port + CHAT_PATH@
}

/// The address to post a request to.
pub fn endpoint(base_url: &str, port: &str) -> (url: String)
    ensures
        url@ == endpoint_spec(base_url@, port@),
{
    let mut url = base_url.to_owned();
    url.append(":");
    url.append(port);
    url.append(CHAT_PATH);
    url
}

/// The request that asks `model` for one complete reply to `msgs`.
pub fn chat_request(model: String, msgs: Vec<ChatMessage>) -> (req: ChatRequest)
    ensures
        req.model@ == model@,
        req.messages@ == msgs@,
        !req.stream,
{
    ChatRequest::new(model, msgs)
}

/// Whether an HTTP status reports success.
pub open spec fn is_success(status: u16) -> bool {
    200 <= status <= 299
}

/// What the status of a reply amounts to: a status outside 200..=299 is an
/// error that carries the status.
pub fn status_outcome(status: u16) -> (r: Result<(), ChatError>)
    ensures
        is_success(status) ==> r is Ok,
        !is_success(status) ==> r is Err && r->Err_0@ == ChatErrorView::HttpStatus(status),
{
    if 200 <= status && status <= 299 {
        Ok(())
    } else {
        Err(ChatError::HttpStatus(status))
    }
}

/// The answer held in the content of a message: what follows the reasoning,
/// and an error where the reasoning is opened and never closed.
pub open spec fn content_answer(content: Seq<char>) -> Result<Seq<char>, ChatErrorView> {
    match split_reasoning(content) {
        Some((_, answer)) => Ok(answer),
        None => Err(ChatErrorView::ReasoningMarkerMismatch),
    }
}

/// The answer of a reply, given the content found in its body, if any was
/// found: a body without a content is an error of its own.
pub open spec fn reply_answer(content: Option<Seq<char>>) -> Result<Seq<char>, ChatErrorView> {
    match content {
        Some(c) => content_answer(c),
        None => Err(ChatErrorView::ResponseParse),
    }
}

/// The content that a reply body holds: the string at `CONTENT_POINTER` of
/// the document the body reads as, if it reads as one and holds one there.
pub open spec fn body_content(body: Seq<char>) -> Option<Seq<char>> {
    match document_strings(body) {
        Some(strings) => if strings.dom().contains(CONTENT_POINTER@) {
            Some(strings[CONTENT_POINTER@])
        } else {
            None
        },
        None => None,
    }
}

/// The answer in the content of a message.
pub fn answer_of_content(content: &str) -> (r: Result<String, ChatError>)
    ensures
        answer_view(r) == content_answer(content@),
{
    match extract_think_and_answer(content) {
        Some((_think, answer)) => Ok(answer),
        None => Err(ChatError::ReasoningMarkerMismatch),
    }
}

/// The answer of a reply whose body held `content`.
pub fn answer_of_reply(content: Option<String>) -> (r: Result<String, ChatError>)
    ensures
        answer_view(r) == reply_answer(
            match content {
                Some(c) => Some(c@),
                None => None,
            },
        ),
{
    match content {
        Some(c) => answer_of_content(c.as_str()),
        None => Err(ChatError::ResponseParse),
    }
}

/// Reads the body of a reply and gives the answer of the model. Fields of
/// the document other than the content of the message are not looked at.
pub fn decode_reply(body: &str) -> (r: Result<String, ChatError>)
    ensures
        answer_view(r) == reply_answer(body_content(body@)),
{
    match parse(body) {
        Ok(doc) => answer_of_reply(string_at(&doc, CONTENT_POINTER)),
        Err(_) => Err(ChatError::ResponseParse),
    }
}

/// What a completed exchange amounts to: the error of the status where the
/// status is no success, else what the body holds.
pub open spec fn exchange_outcome(status: u16, body: Seq<char>) -> Result<
    Seq<char>,
    ChatErrorView,
> {
    if is_success(status) {
        reply_answer(body_content(body))
    } else {
        Err(ChatErrorView::HttpStatus(status))
    }
}

/// Reads a completed exchange: the status first, then the body.
pub fn read_exchange(status: u16, body: &str) -> (r: Result<String, ChatError>)
    ensures
        answer_view(r) == exchange_outcome(status, body@),
{
    match status_outcome(status) {
        Ok(_) => decode_reply(body),
        Err(e) => Err(e),
    }
}

impl OllamaChatResponse {
    /// The answer of the model in this reply.
    pub fn answer(&self) -> (r: Result<String, ChatError>)
        ensures
            answer_view(r) == content_answer(self.message.content@),
    {
        answer_of_content(self.message.content.as_str())
    }
}

} // verus!
