use grok_chat::models::{ChatSession, Message, MessageRole, Timestamp};

#[test]
fn test_message_role_display() {
    assert_eq!(MessageRole::User.to_string(), "user");
    assert_eq!(MessageRole::Assistant.to_string(), "assistant");
    assert_eq!(MessageRole::System.to_string(), "system");
}

#[test]
fn test_message_role_from_string() {
    assert_eq!(MessageRole::from("user"), MessageRole::User);
    assert_eq!(MessageRole::from("assistant"), MessageRole::Assistant);
    assert_eq!(MessageRole::from("system"), MessageRole::System);
    assert_eq!(MessageRole::from("unknown"), MessageRole::User);
}

#[test]
fn test_chat_session_creation() {
    let session = ChatSession::new("grok-4-0709".to_string(), Some("Test Chat".to_string()));
    assert!(!session.id.is_empty());
    assert_eq!(session.model, "grok-4-0709");
    assert_eq!(session.title, Some("Test Chat".to_string()));
}

#[test]
fn test_message_creation() {
    let message = Message::user("session-123".to_string(), "Hello, world!".to_string());
    assert_eq!(message.session_id, "session-123");
    assert_eq!(message.role, MessageRole::User);
    assert_eq!(message.content, "Hello, world!");
    assert!(message.timestamp <= Timestamp::now());
}

#[test]
fn test_message_formatting() {
    let message = Message::user("session-123".to_string(), "Hello".to_string());
    assert_eq!(message.role, MessageRole::User);
    assert_eq!(message.content, "Hello");
}

#[test]
fn role_text_round_trips() {
    for role in [MessageRole::User, MessageRole::Assistant, MessageRole::System] {
        assert_eq!(MessageRole::parse(role.as_str()), role);
        assert_eq!(MessageRole::from(role.to_string()), role);
    }
    assert_eq!(MessageRole::parse("moderator"), MessageRole::User);
    assert_eq!(MessageRole::parse(""), MessageRole::User);
    assert_eq!(MessageRole::parse("Assistant"), MessageRole::User);
    assert_eq!(MessageRole::parse("system "), MessageRole::User);
}

#[test]
fn new_session_has_identifier_model_and_no_title() {
    let session = ChatSession::new("grok-4-0709".to_string(), None);
    assert!(!session.id.is_empty());
    assert_eq!(session.id.len(), 36);
    assert_eq!(session.model, "grok-4-0709");
    assert_eq!(session.title, None);
    assert_eq!(session.created_at, session.updated_at);
    let other = ChatSession::new("grok-4-0709".to_string(), None);
    assert_ne!(session.id, other.id);
}

#[test]
fn touch_moves_updated_at_forward_only() {
    let t0 = Timestamp { micros: 1_000 };
    let mut session = ChatSession::new_at("s1".to_string(), t0, "grok-3".to_string(), None);
    session.touch(Timestamp { micros: 5_000 });
    assert_eq!(session.updated_at, Timestamp { micros: 5_000 });
    assert_eq!(session.created_at, t0);
    session.touch(Timestamp { micros: 2_000 });
    assert_eq!(session.updated_at, Timestamp { micros: 5_000 });
    assert_eq!(session.created_at, t0);
    let before = session.updated_at;
    session.update_timestamp();
    assert!(session.updated_at >= before);
    assert_eq!(session.created_at, t0);
}

#[test]
fn message_constructors_set_role_and_model() {
    let a = Message::assistant("s".to_string(), "hi".to_string(), Some("grok-3".to_string()));
    assert_eq!(a.role, MessageRole::Assistant);
    assert_eq!(a.model, Some("grok-3".to_string()));
    assert_eq!(a.id, 0);
    assert_eq!(a.tokens_used, None);
    let s = Message::system("s".to_string(), "be brief".to_string());
    assert_eq!(s.role, MessageRole::System);
    assert_eq!(s.model, None);
}

#[test]
fn later_picks_the_later_time() {
    let a = Timestamp { micros: -3 };
    let b = Timestamp { micros: 7 };
    assert_eq!(a.later(b), b);
    assert_eq!(b.later(a), b);
    assert_eq!(a.later(a), a);
}
