use grok_chat::api::{
    model_or_default, ApiResponse, SendAction, SendEvent, SendFlow, SendPhase, DEFAULT_MODEL,
};
use grok_chat::client::DEFAULT_SYSTEM_PROMPT;
use grok_chat::error::ChatError;
use grok_chat::models::{ApiChatResponse, ApiMessage, Choice, Message, MessageRole};

#[test]
fn test_api_response_success() {
    let response = ApiResponse::success("test data");
    assert!(response.success);
    assert_eq!(response.data, Some("test data"));
    assert_eq!(response.error, None);
}

#[test]
fn test_api_response_error() {
    let response: ApiResponse<()> = ApiResponse::error("test error".to_string());
    assert!(!response.success);
    assert_eq!(response.data, None);
    assert_eq!(response.error, Some("test error".to_string()));
}

fn answer(content: Option<&str>) -> ApiChatResponse {
    ApiChatResponse {
        id: "r1".to_string(),
        object: "chat.completion".to_string(),
        created: 0,
        model: "grok-3".to_string(),
        choices: vec![Choice {
            index: 0,
            message: content.map(|c| ApiMessage { role: "assistant".to_string(), content: c.to_string() }),
            delta: None,
            finish_reason: None,
        }],
        usage: None,
    }
}

#[test]
fn upstream_failure_keeps_user_message_and_records_no_reply() {
    let mut store: Vec<Message> = Vec::new();
    let (mut flow, first) = SendFlow::start("s1".to_string(), &Vec::new(), "hello".to_string(), None);
    match first {
        SendAction::Save(m) => store.push(m),
        other => panic!("unexpected first action {:?}", other),
    }
    assert!(matches!(flow.step(SendEvent::Saved), SendAction::Call));
    let failure = ChatError::Upstream { status: 500, body: "boom".to_string() };
    match flow.step(SendEvent::CallFailed(failure)) {
        SendAction::Done(Err(ChatError::Upstream { status, body })) => {
            assert_eq!(status, 500);
            assert_eq!(body, "boom");
        }
        other => panic!("unexpected action {:?}", other),
    }
    assert!(matches!(flow.phase, SendPhase::Finished));
    assert_eq!(store.len(), 1);
    assert_eq!(store[0].role, MessageRole::User);
    assert_eq!(store[0].content, "hello");
    assert_eq!(store[0].session_id, "s1");
    assert!(matches!(flow.step(SendEvent::Saved), SendAction::Ignore));
}

#[test]
fn successful_send_records_reply_with_model() {
    let history = vec![
        Message::user("s1".to_string(), "earlier".to_string()),
        Message::assistant("s1".to_string(), "answer".to_string(), Some("grok-3".to_string())),
    ];
    let (mut flow, _) =
        SendFlow::start("s1".to_string(), &history, "next".to_string(), Some("grok-3".to_string()));
    assert_eq!(flow.model, "grok-3");
    let roles: Vec<&str> = flow.conversation.iter().map(|m| m.role.as_str()).collect();
    assert_eq!(roles, vec!["system", "user", "assistant", "user"]);
    assert_eq!(flow.conversation[0].content, DEFAULT_SYSTEM_PROMPT);
    assert_eq!(flow.conversation[3].content, "next");
    assert!(matches!(flow.step(SendEvent::Saved), SendAction::Call));
    match flow.step(SendEvent::Replied(answer(Some("Hi!")))) {
        SendAction::Save(m) => {
            assert_eq!(m.role, MessageRole::Assistant);
            assert_eq!(m.content, "Hi!");
            assert_eq!(m.model, Some("grok-3".to_string()));
        }
        other => panic!("unexpected action {:?}", other),
    }
    match flow.step(SendEvent::SaveFailed(ChatError::Storage("disk".to_string()))) {
        SendAction::Done(Ok(text)) => assert_eq!(text, "Hi!"),
        other => panic!("unexpected action {:?}", other),
    }
}

#[test]
fn reply_without_message_records_fallback_text() {
    let (mut flow, _) = SendFlow::start("s2".to_string(), &Vec::new(), "q".to_string(), None);
    assert_eq!(flow.model, DEFAULT_MODEL);
    flow.step(SendEvent::Saved);
    match flow.step(SendEvent::Replied(answer(None))) {
        SendAction::Save(m) => assert_eq!(m.content, "No response content"),
        other => panic!("unexpected action {:?}", other),
    }
    match flow.step(SendEvent::Saved) {
        SendAction::Done(Ok(text)) => assert_eq!(text, "No response content"),
        other => panic!("unexpected action {:?}", other),
    }
}

#[test]
fn failed_user_save_ends_without_call() {
    let (mut flow, _) = SendFlow::start("s3".to_string(), &Vec::new(), "q".to_string(), None);
    match flow.step(SendEvent::SaveFailed(ChatError::Storage("locked".to_string()))) {
        SendAction::Done(Err(ChatError::Storage(msg))) => assert_eq!(msg, "locked"),
        other => panic!("unexpected action {:?}", other),
    }
    assert!(matches!(flow.phase, SendPhase::Finished));
}

#[test]
fn model_defaults_when_absent() {
    assert_eq!(model_or_default(None), "grok-4-0709");
    assert_eq!(model_or_default(Some("grok-3".to_string())), "grok-3");
}
