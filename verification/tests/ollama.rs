use aigit::chat::{ChatError, ChatMessage, Role};
use aigit::ollama::{
    answer_of_content, answer_of_reply, chat_request, decode_reply, endpoint, read_exchange,
    status_outcome, OllamaChatResponse, CHAT_PATH, CONTENT_POINTER, TIMEOUT_SECS,
};

#[test]
fn endpoint_joins_base_port_and_path() {
    assert_eq!(endpoint("http://localhost", "11434"), "http://localhost:11434/api/chat");
    assert_eq!(endpoint("", ""), ":/api/chat");
    assert_eq!(CHAT_PATH, "/api/chat");
}

#[test]
fn replies_are_waited_for_300_seconds() {
    assert_eq!(TIMEOUT_SECS, 300);
}

#[test]
fn request_carries_model_and_messages_and_does_not_stream() {
    let msgs = vec![ChatMessage::new(Role::User, "hello.".to_string())];
    let req = chat_request("deepseek-r1:8b".to_string(), msgs);
    assert_eq!(req.model, "deepseek-r1:8b");
    assert_eq!(req.messages, vec![ChatMessage::new(Role::User, "hello.".to_string())]);
    assert!(!req.stream);
}

#[test]
fn status_outside_2xx_is_an_error() {
    assert_eq!(status_outcome(200), Ok(()));
    assert_eq!(status_outcome(204), Ok(()));
    assert_eq!(status_outcome(299), Ok(()));
    assert_eq!(status_outcome(199), Err(ChatError::HttpStatus(199)));
    assert_eq!(status_outcome(300), Err(ChatError::HttpStatus(300)));
    assert_eq!(status_outcome(404), Err(ChatError::HttpStatus(404)));
    assert_eq!(status_outcome(500), Err(ChatError::HttpStatus(500)));
    assert_eq!(status_outcome(0), Err(ChatError::HttpStatus(0)));
}

#[test]
fn reply_with_reasoning_yields_the_answer() {
    let body = r#"{"message":{"content":"<think>analyzing</think>feat: add parser"}}"#;
    assert_eq!(decode_reply(body), Ok("feat: add parser".to_string()));
    assert_eq!(read_exchange(200, body), Ok("feat: add parser".to_string()));
}

#[test]
fn full_reply_is_read_for_its_content_alone() {
    let body = r#"{"model":"deepseek-r1:8b","created_at":"2025-02-01T00:00:00Z",
        "message":{"role":"assistant","content":"\n<think>\nhm\n</think>\n\nHello \"you\" é\n"},
        "done_reason":"stop","done":true,"total_duration":1,"load_duration":2,
        "prompt_eval_count":3,"prompt_eval_duration":4,"eval_count":5,"eval_duration":6}"#;
    assert_eq!(decode_reply(body), Ok("Hello \"you\" é".to_string()));
}

#[test]
fn reply_without_markers_is_trimmed() {
    assert_eq!(
        decode_reply(r#"{"message":{"content":"  plain answer\n"}}"#),
        Ok("plain answer".to_string())
    );
}

#[test]
fn malformed_body_is_a_parse_error() {
    for body in [
        "",
        "not json",
        "{",
        r#"{"message":{"content":"x"}} trailing"#,
        "{}",
        r#"{"message":{}}"#,
        r#"{"message":"text"}"#,
        r#"{"message":{"content":null}}"#,
        r#"{"message":{"content":42}}"#,
        r#"{"message":{"content":["x"]}}"#,
        r#"{"content":"x"}"#,
        r#"[{"message":{"content":"x"}}]"#,
    ] {
        assert_eq!(decode_reply(body), Err(ChatError::ResponseParse), "{:?}", body);
    }
}

#[test]
fn unclosed_reasoning_is_a_marker_mismatch() {
    assert_eq!(
        decode_reply(r#"{"message":{"content":"<think>never closed"}}"#),
        Err(ChatError::ReasoningMarkerMismatch)
    );
    assert_eq!(
        answer_of_content("<think>never closed"),
        Err(ChatError::ReasoningMarkerMismatch)
    );
}

#[test]
fn status_is_looked_at_before_the_body() {
    let body = r#"{"message":{"content":"fine"}}"#;
    assert_eq!(read_exchange(404, body), Err(ChatError::HttpStatus(404)));
    assert_eq!(read_exchange(500, "not json"), Err(ChatError::HttpStatus(500)));
    assert_eq!(read_exchange(201, "not json"), Err(ChatError::ResponseParse));
    assert_eq!(read_exchange(201, body), Ok("fine".to_string()));
}

#[test]
fn answer_of_reply_by_content() {
    assert_eq!(answer_of_reply(None), Err(ChatError::ResponseParse));
    assert_eq!(answer_of_reply(Some(" a ".to_string())), Ok("a".to_string()));
    assert_eq!(
        answer_of_reply(Some("<think>x</think>y".to_string())),
        Ok("y".to_string())
    );
    assert_eq!(
        answer_of_reply(Some("<think>x".to_string())),
        Err(ChatError::ReasoningMarkerMismatch)
    );
}

#[test]
fn content_pointer_names_message_content() {
    assert_eq!(CONTENT_POINTER, "/message/content");
}

#[test]
fn typed_response_gives_its_answer() {
    let response = OllamaChatResponse {
        model: "deepseek-r1:8b".to_string(),
        created_at: "2025-02-01T00:00:00Z".to_string(),
        message: ChatMessage::new(Role::Assistant, "<think>a</think> b ".to_string()),
        done_reason: Some("stop".to_string()),
        done: true,
        total_duration: 1,
        load_duration: 2,
        prompt_eval_count: 3,
        prompt_eval_duration: 4,
        eval_count: 5,
        eval_duration: 6,
    };
    assert_eq!(response.answer(), Ok("b".to_string()));
}
