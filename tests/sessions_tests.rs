use grok_chat::models::{ChatSession, Timestamp};
use grok_chat::sessions::{order_by_recency, sessions_page};

fn at(id: &str, micros: i64) -> ChatSession {
    ChatSession::new_at(id.to_string(), Timestamp { micros }, "grok-3".to_string(), None)
}

fn ids(s: &[ChatSession]) -> Vec<&str> {
    s.iter().map(|x| x.id.as_str()).collect()
}

#[test]
fn sessions_listed_most_recent_first() {
    let session1 = at("session-1", 100);
    let session2 = at("session-2", 200);
    let listed = sessions_page(vec![session1, session2], Some(10), Some(0));
    assert_eq!(ids(&listed), vec!["session-2", "session-1"]);
}

#[test]
fn touched_session_moves_to_front() {
    let mut a = at("a", 1);
    let b = at("b", 2);
    a.touch(Timestamp { micros: 3 });
    assert_eq!(ids(&order_by_recency(vec![a, b])), vec!["a", "b"]);
}

#[test]
fn equal_times_keep_given_order() {
    let listed = order_by_recency(vec![at("x", 5), at("y", 9), at("z", 5), at("w", 5)]);
    assert_eq!(ids(&listed), vec!["y", "x", "z", "w"]);
}

#[test]
fn paging_applies_offset_and_limit() {
    let all: Vec<ChatSession> = (0..7).map(|k| at(&format!("s{}", k), k)).collect();
    assert_eq!(ids(&sessions_page(all.clone(), Some(2), Some(1))), vec!["s5", "s4"]);
    assert_eq!(ids(&sessions_page(all.clone(), Some(10), Some(5))), vec!["s1", "s0"]);
    assert_eq!(sessions_page(all.clone(), Some(3), Some(9)).len(), 0);
    assert_eq!(sessions_page(all.clone(), Some(-1), Some(-4)).len(), 7);
    assert_eq!(sessions_page(all.clone(), None, None).len(), 7);
    assert_eq!(sessions_page(all, Some(0), None).len(), 0);
    assert_eq!(sessions_page(Vec::new(), None, None).len(), 0);
}
