//! Sessions, messages and the wire shapes of the completion API.

use vstd::prelude::*;
use crate::text::same_text;

verus! {

/// Who wrote a message.
#[derive(Debug, Clone, Copy, PartialEq, Eq, Structural)]
pub enum MessageRole {
    User,
    Assistant,
    System,
}

/// The textual form of a role.
pub open spec fn role_text(r: MessageRole) -> Seq<char> {
    match r {
        MessageRole::User => seq!['u', 's', 'e', 'r'],
        MessageRole::Assistant => seq!['a', 's', 's', 'i', 's', 't', 'a', 'n', 't'],
        MessageRole::System => seq!['s', 'y', 's', 't', 'e', 'm'],
    }
}

/// The role that a text names; any text outside the three names reads as `User`.
pub open spec fn role_from_text(s: Seq<char>) -> MessageRole {
    if s == role_text(MessageRole::Assistant) {
        MessageRole::Assistant
    } else if s == role_text(MessageRole::System) {
        MessageRole::System
    } else {
        MessageRole::User
    }
}

impl MessageRole {
    /// The textual form of the role, as stored and sent.
    pub fn as_str(&self) -> (r: &'static str)
        ensures
            r@ == role_text(*self),
    {
        match self {
            MessageRole::User => {
                proof {
                    reveal_strlit("user");
                    assert("user"@ =~= role_text(MessageRole::User));
                }
                "user"
            },
            MessageRole::Assistant => {
                proof {
                    reveal_strlit("assistant");
                    assert("assistant"@ =~= role_text(MessageRole::Assistant));
                }
                "assistant"
            },
            MessageRole::System => {
                proof {
                    reveal_strlit("system");
                    assert("system"@ =~= role_text(MessageRole::System));
                }
                "system"
            },
        }
    }

    /// The textual form of the role as an owned string.
    pub fn to_string(&self) -> (r: String)
        ensures
            r@ == role_text(*self),
    {
        self.as_str().to_owned()
    }

    /// Reads a role from its textual form; unknown names fall back to `User`.
    pub fn parse(s: &str) -> (r: MessageRole)
        ensures
            r == role_from_text(s@),
    {
        proof {
            reveal_strlit("assistant");
            reveal_strlit("system");
            assert("assistant"@ =~= role_text(MessageRole::Assistant));
            assert("system"@ =~= role_text(MessageRole::System));
        }
        if same_text(s, "assistant") {
            MessageRole::Assistant
        } else if same_text(s, "system") {
            MessageRole::System
        } else {
            MessageRole::User
        }
    }
}

impl<'a> From<&'a str> for MessageRole {
    fn from(s: &'a str) -> (r: MessageRole) {
        MessageRole::parse(s)
    }
}

impl<'a> vstd::std_specs::convert::FromSpecImpl<&'a str> for MessageRole {
    open spec fn obeys_from_spec() -> bool {
        true
    }

    open spec fn from_spec(s: &'a str) -> MessageRole {
        role_from_text(s@)
    }
}

impl From<String> for MessageRole {
    fn from(s: String) -> (r: MessageRole) {
        MessageRole::parse(s.as_str())
    }
}

impl vstd::std_specs::convert::FromSpecImpl<String> for MessageRole {
    open spec fn obeys_from_spec() -> bool {
        true
    }

    open spec fn from_spec(s: String) -> MessageRole {
        role_from_text(s@)
    }
}

/// Reading back the textual form of any role gives that role, and a text that
/// names none of the three roles reads as `User`.
pub proof fn lemma_role_round_trip(r: MessageRole, s: Seq<char>)
    ensures
        role_from_text(role_text(r)) == r,
        s != role_text(MessageRole::User) && s != role_text(MessageRole::Assistant) && s
            != role_text(MessageRole::System) ==> role_from_text(s) == MessageRole::User,
{
    assert(role_text(MessageRole::User) != role_text(MessageRole::Assistant));
    assert(role_text(MessageRole::User) != role_text(MessageRole::System));
    assert(role_text(MessageRole::System) != role_text(MessageRole::Assistant));
}

/// A point in time, in microseconds since 1970-01-01T00:00:00Z.
#[derive(Debug, Clone, Copy, PartialEq, Eq, PartialOrd, Ord, Hash, Structural)]
pub struct Timestamp {
    pub micros: i64,
}

/// Relies on chrono::Utc::now and DateTime::timestamp_micros: the current
/// time. Nothing is promised of its value.
#[verifier::external_body]
fn clock_now() -> (r: Timestamp) {
    Timestamp { micros: chrono::Utc::now().timestamp_micros() }
}

/// Relies on uuid::Uuid::new_v4 and the hyphenated text form that its
/// `Display` writes: a random identifier of 36 characters.
#[verifier::external_body]
fn fresh_id() -> (r: String)
    ensures
        r@.len() == 36,
{
    uuid::Uuid::new_v4().to_string()
}

impl Timestamp {
    /// The current time.
    pub fn now() -> (r: Timestamp) {
        clock_now()
    }

    /// The later of two points in time.
    pub fn later(self, other: Timestamp) -> (r: Timestamp)
        ensures
            r.micros == if self.micros >= other.micros {
                self.micros
            } else {
                other.micros
            },
    {
        if self.micros >= other.micros {
            self
        } else {
            other
        }
    }
}

/// A conversation thread with one model.
#[derive(Debug, Clone)]
pub struct ChatSession {
    pub id: String,
    pub created_at: Timestamp,
    pub updated_at: Timestamp,
    pub model: String,
    pub title: Option<String>,
}

impl ChatSession {
    /// A session was never updated before it was created.
    pub open spec fn wf(&self) -> bool {
        self.created_at.micros <= self.updated_at.micros
    }

    /// A session with the given identity, created and updated at `now`.
    pub fn new_at(id: String, now: Timestamp, model: String, title: Option<String>) -> (s:
        ChatSession)
        ensures
            s.id == id,
            s.created_at == now,
            s.updated_at == now,
            s.model == model,
            s.title == title,
            s.wf(),
    {
        ChatSession { id, created_at: now, updated_at: now, model, title }
    }

    /// A new session with a fresh random identifier, created now.
    pub fn new(model: String, title: Option<String>) -> (s: ChatSession)
        ensures
            s.id@.len() == 36,
            s.created_at == s.updated_at,
            s.model == model,
            s.title == title,
            s.wf(),
    {
        ChatSession::new_at(fresh_id(), clock_now(), model, title)
    }

    /// Records activity at `now`: `updated_at` moves forward to `now`, never
    /// back, and nothing else changes.
    pub fn touch(&mut self, now: Timestamp)
        ensures
            final(self).updated_at.micros >= old(self).updated_at.micros,
            final(self).updated_at.micros >= now.micros,
            final(self).updated_at == old(self).updated_at || final(self).updated_at == now,
            final(self).created_at == old(self).created_at,
            final(self).id == old(self).id,
            final(self).model == old(self).model,
            final(self).title == old(self).title,
            old(self).wf() ==> final(self).wf(),
    {
        self.updated_at = self.updated_at.later(now);
    }

    /// Records activity now, as `touch` does with the current time.
    pub fn update_timestamp(&mut self)
        ensures
            final(self).updated_at.micros >= old(self).updated_at.micros,
            final(self).created_at == old(self).created_at,
            final(self).id == old(self).id,
            final(self).model == old(self).model,
            final(self).title == old(self).title,
            old(self).wf() ==> final(self).wf(),
    {
        let now = clock_now();
        self.touch(now);
    }
}

/// One turn of a session.
#[derive(Debug, Clone)]
pub struct Message {
    pub id: i64,
    pub session_id: String,
    pub role: MessageRole,
    pub content: String,
    pub timestamp: Timestamp,
    pub model: Option<String>,
    pub tokens_used: Option<i32>,
}

impl Message {
    /// A message written now, not yet stored (its id is 0) and with no token count.
    pub fn new(session_id: String, role: MessageRole, content: String, model: Option<String>) -> (m:
        Message)
        ensures
            m.id == 0,
            m.session_id == session_id,
            m.role == role,
            m.content == content,
            m.model == model,
            m.tokens_used is None,
    {
        Message {
            id: 0,
            session_id,
            role,
            content,
            timestamp: clock_now(),
            model,
            tokens_used: None,
        }
    }

    /// A message from the user.
    pub fn user(session_id: String, content: String) -> (m: Message)
        ensures
            m.id == 0,
            m.session_id == session_id,
            m.role == MessageRole::User,
            m.content == content,
            m.model is None,
            m.tokens_used is None,
    {
        Message::new(session_id, MessageRole::User, content, None)
    }

    /// A reply of the assistant, with the model that wrote it.
    pub fn assistant(session_id: String, content: String, model: Option<String>) -> (m: Message)
        ensures
            m.id == 0,
            m.session_id == session_id,
            m.role == MessageRole::Assistant,
            m.content == content,
            m.model == model,
            m.tokens_used is None,
    {
        Message::new(session_id, MessageRole::Assistant, content, model)
    }

    /// A system instruction.
    pub fn system(session_id: String, content: String) -> (m: Message)
        ensures
            m.id == 0,
            m.session_id == session_id,
            m.role == MessageRole::System,
            m.content == content,
            m.model is None,
            m.tokens_used is None,
    {
        Message::new(session_id, MessageRole::System, content, None)
    }
}

/// Token counts of one completion.
#[derive(Debug, Clone, Copy, PartialEq, Eq, Structural)]
pub struct UsageStats {
    pub prompt_tokens: i32,
    pub completion_tokens: i32,
    pub total_tokens: i32,
}

/// A role and a text, as the completion API takes and returns them.
#[derive(Debug, Clone)]
pub struct ApiMessage {
    pub role: String,
    pub content: String,
}

/// The incremental part of a streamed choice.
#[derive(Debug, Clone)]
pub struct Delta {
    pub role: Option<String>,
    pub content: Option<String>,
}

/// One alternative of a completion.
#[derive(Debug, Clone)]
pub struct Choice {
    pub index: i32,
    pub message: Option<ApiMessage>,
    pub delta: Option<Delta>,
    pub finish_reason: Option<String>,
}

/// A completed (non-streamed) response of the completion API.
#[derive(Debug, Clone)]
pub struct ApiChatResponse {
    pub id: String,
    pub object: String,
    pub created: i64,
    pub model: String,
    pub choices: Vec<Choice>,
    pub usage: Option<UsageStats>,
}

/// A reply of the chat service: the recorded message and its token counts.
#[derive(Debug, Clone)]
pub struct ChatResponse {
    pub session_id: String,
    pub message: Message,
    pub usage: Option<UsageStats>,
}

} // verus!
