use grok_chat::client::{
    build_conversation, check_status, completion_reply, contains, is_text_model, models_from_body,
};
use grok_chat::error::ChatError;
use grok_chat::models::{ApiChatResponse, ApiMessage, Choice, Message, UsageStats};

#[test]
fn status_outside_success_range_is_upstream_error() {
    assert!(check_status(200, String::new()).is_ok());
    assert!(check_status(299, String::new()).is_ok());
    match check_status(500, "oops".to_string()) {
        Err(ChatError::Upstream { status, body }) => {
            assert_eq!(status, 500);
            assert_eq!(body, "oops");
        }
        other => panic!("unexpected {:?}", other),
    }
    assert!(check_status(199, String::new()).is_err());
    assert!(check_status(300, String::new()).is_err());
}

#[test]
fn completion_reply_reads_first_message_content() {
    let body = r#"{"choices":[{"message":{"role":"assistant","content":"Hello"}},{"message":{"content":"no"}}]}"#;
    assert_eq!(completion_reply(200, body.to_string()).unwrap(), "Hello");
    assert!(matches!(
        completion_reply(200, r#"{"choices":[]}"#.to_string()),
        Err(ChatError::Protocol(_))
    ));
    assert!(matches!(
        completion_reply(200, r#"{"choices":[{"message":{"content":3}}]}"#.to_string()),
        Err(ChatError::Protocol(_))
    ));
    assert!(matches!(completion_reply(200, "not json".to_string()), Err(ChatError::Protocol(_))));
    assert!(matches!(
        completion_reply(401, body.to_string()),
        Err(ChatError::Upstream { status: 401, .. })
    ));
}

#[test]
fn model_listing_keeps_text_grok_models() {
    let body = r#"{"data":[{"id":"grok-3"},{"id":"grok-2-vision"},{"id":"grok-2-image"},{"id":"other"},{"name":"grok-x"},{"id":"grok-4-0709"}]}"#;
    assert_eq!(models_from_body(body).unwrap(), vec!["grok-3".to_string(), "grok-4-0709".to_string()]);
    assert!(matches!(models_from_body(r#"{"data":{}}"#), Err(ChatError::Protocol(_))));
    assert!(matches!(models_from_body("[]"), Err(ChatError::Protocol(_))));
}

#[test]
fn text_model_filter() {
    assert!(is_text_model("grok-3-mini"));
    assert!(!is_text_model("grok-vision-beta"));
    assert!(!is_text_model("grok-2-image-1212"));
    assert!(!is_text_model("gpt"));
    assert!(contains("abc", ""));
    assert!(contains("abc", "bc"));
    assert!(!contains("ab", "abc"));
}

#[test]
fn conversation_puts_system_first_and_user_last() {
    let history = vec![
        Message::user("s".to_string(), "one".to_string()),
        Message::assistant("s".to_string(), "two".to_string(), None),
    ];
    let c = build_conversation(Some("sys"), &history, "three");
    let pairs: Vec<(&str, &str)> = c.iter().map(|m| (m.role.as_str(), m.content.as_str())).collect();
    assert_eq!(
        pairs,
        vec![("system", "sys"), ("user", "one"), ("assistant", "two"), ("user", "three")]
    );
    let bare = build_conversation(None, &Vec::new(), "hi");
    assert_eq!(bare.len(), 1);
    assert_eq!(bare[0].role, "user");
    assert_eq!(history[0].content, "one");
}

#[test]
fn get_content_and_usage() {
    let usage = UsageStats { prompt_tokens: 1, completion_tokens: 2, total_tokens: 3 };
    let mut resp = ApiChatResponse {
        id: "x".to_string(),
        object: "chat.completion".to_string(),
        created: 1,
        model: "grok-3".to_string(),
        choices: vec![Choice {
            index: 0,
            message: Some(ApiMessage { role: "assistant".to_string(), content: "hey".to_string() }),
            delta: None,
            finish_reason: Some("stop".to_string()),
        }],
        usage: Some(usage),
    };
    assert_eq!(resp.get_content().unwrap(), "hey");
    assert_eq!(resp.get_usage(), Some(&usage));
    resp.choices[0].message = None;
    assert!(matches!(resp.get_content(), Err(ChatError::Protocol(_))));
    resp.choices.clear();
    resp.usage = None;
    assert!(matches!(resp.get_content(), Err(ChatError::Protocol(_))));
    assert_eq!(resp.get_usage(), None);
}
