//! The HTTP API's shapes, and the send-message protocol that its handler runs:
//! record the user turn, call the provider, record the reply.

use vstd::prelude::*;
use crate::client::{api_view, build_conversation, conversation_view, DEFAULT_SYSTEM_PROMPT};
use crate::config::default_model_name;
use crate::error::ChatError;
use crate::models::{ApiChatResponse, ApiMessage, Message, MessageRole};

verus! {

/// The envelope of every answer: a success flag, the payload, the error text.
#[derive(Debug, Clone)]
pub struct ApiResponse<T> {
    pub success: bool,
    pub data: Option<T>,
    pub error: Option<String>,
}

impl<T> ApiResponse<T> {
    /// A successful answer carrying `data`.
    pub fn success(data: T) -> (r: ApiResponse<T>)
        ensures
            r.success,
            r.data == Some(data),
            r.error is None,
    {
        ApiResponse { success: true, data: Some(data), error: None }
    }
}

impl ApiResponse<()> {
    /// A failed answer carrying the error text.
    pub fn error(error: String) -> (r: ApiResponse<()>)
        ensures
            !r.success,
            r.data is None,
            r.error == Some(error),
    {
        ApiResponse { success: false, data: None, error: Some(error) }
    }
}

/// The body of a request that creates a session.
#[derive(Debug, Clone)]
pub struct CreateSessionRequest {
    pub model: Option<String>,
    pub title: Option<String>,
}

/// The body of a request that sends a message to a session.
#[derive(Debug, Clone)]
pub struct SendMessageRequest {
    pub message: String,
    pub model: Option<String>,
}

/// The model used when a request names none.
pub const DEFAULT_MODEL: &'static str = "grok-4-0709";

/// The model a request names, or the default one.
pub fn model_or_default(model: Option<String>) -> (r: String)
    ensures
        model matches Some(m) ==> r == m,
        model is None ==> r@ == default_model_name(),
{
    match model {
        Some(m) => m,
        None => {
            proof {
                reveal_strlit("grok-4-0709");
                assert("grok-4-0709"@ =~= default_model_name());
            }
            DEFAULT_MODEL.to_owned()
        },
    }
}

/// `No response content`, the reply recorded when the provider's answer
/// carries no message.
pub open spec fn missing_reply_text() -> Seq<char> {
    seq![
        'N', 'o', ' ', 'r', 'e', 's', 'p', 'o', 'n', 's', 'e', ' ', 'c', 'o', 'n', 't', 'e', 'n', 't',
    ]
}

/// The reply text of an answer: the first choice's message, or the fallback.
pub open spec fn reply_or_fallback(resp: ApiChatResponse) -> Seq<char> {
    if resp.choices@.len() > 0 && resp.choices@[0].message is Some {
        resp.choices@[0].message->Some_0.content@
    } else {
        missing_reply_text()
    }
}

/// Where a send stands.
#[derive(Debug, Clone)]
pub enum SendPhase {
    /// The user turn is being recorded.
    SavingUser,
    /// The provider has been called.
    AwaitingReply,
    /// The reply is being recorded.
    SavingReply(String),
    /// The send has ended.
    Finished,
}

/// What the caller reports back after doing the last action.
#[derive(Debug, Clone)]
pub enum SendEvent {
    Saved,
    SaveFailed(ChatError),
    Replied(ApiChatResponse),
    CallFailed(ChatError),
}

/// What the caller is to do next.
#[derive(Debug)]
pub enum SendAction {
    /// Record this message.
    Save(Message),
    /// Call the provider with the flow's model and conversation.
    Call,
    /// Answer the request with this result.
    Done(Result<String, ChatError>),
    /// The event does not fit the phase: nothing to do.
    Ignore,
}

/// One send of a user message to a session. The user turn is recorded
/// before the provider is called and stays recorded whatever follows.
#[derive(Debug, Clone)]
pub struct SendFlow {
    pub session_id: String,
    pub model: String,
    pub conversation: Vec<ApiMessage>,
    pub phase: SendPhase,
}

impl SendFlow {
    /// Begins a send: the conversation is the default system instruction,
    /// the stored messages and the new text; the first action records the
    /// user turn.
    pub fn start(session_id: String, history: &Vec<Message>, text: String, model: Option<String>) -> (r: (
        SendFlow,
        SendAction,
    ))
        ensures
            r.0.phase is SavingUser,
            r.0.session_id == session_id,
            model matches Some(m) ==> r.0.model == m,
            model is None ==> r.0.model@ == default_model_name(),
            r.0.conversation@.map_values(|m: ApiMessage| api_view(m)) == conversation_view(
                Some(DEFAULT_SYSTEM_PROMPT@),
                history@,
                text@,
            ),
            r.1 matches SendAction::Save(m) && m.session_id == session_id && m.role
                == MessageRole::User && m.content == text,
    {
        let conversation = build_conversation(Some(DEFAULT_SYSTEM_PROMPT), history, text.as_str());
        let user = Message::user(session_id.clone(), text);
        let flow = SendFlow {
            session_id,
            model: model_or_default(model),
            conversation,
            phase: SendPhase::SavingUser,
        };
        (flow, SendAction::Save(user))
    }

    /// Takes the outcome of the last action and gives the next one.
    pub fn step(&mut self, event: SendEvent) -> (a: SendAction)
        ensures
            final(self).session_id == old(self).session_id,
            final(self).model == old(self).model,
            final(self).conversation == old(self).conversation,
            match (old(self).phase, event) {
                (SendPhase::SavingUser, SendEvent::Saved) => {
                    &&& final(self).phase is AwaitingReply
                    &&& a is Call
                },
                (SendPhase::SavingUser, SendEvent::SaveFailed(e)) => {
                    &&& final(self).phase is Finished
                    &&& a == SendAction::Done(Err(e))
                },
                (SendPhase::AwaitingReply, SendEvent::Replied(resp)) => {
                    &&& final(self).phase matches SendPhase::SavingReply(c) && c@ == reply_or_fallback(resp)
                    &&& a matches SendAction::Save(m) && m.session_id == old(self).session_id
                        && m.role == MessageRole::Assistant && m.content@ == reply_or_fallback(resp)
                        && m.model == Some(old(self).model)
                },
                (SendPhase::AwaitingReply, SendEvent::CallFailed(e)) => {
                    &&& final(self).phase is Finished
                    &&& a == SendAction::Done(Err(e))
                },
                (SendPhase::SavingReply(c), SendEvent::Saved) => {
                    &&& final(self).phase is Finished
                    &&& a == SendAction::Done(Ok(c))
                },
                (SendPhase::SavingReply(c), SendEvent::SaveFailed(_)) => {
                    &&& final(self).phase is Finished
                    &&& a == SendAction::Done(Ok(c))
                },
                _ => {
                    &&& final(self).phase == old(self).phase
                    &&& a is Ignore
                },
            },
    {
        let mut phase = SendPhase::Finished;
        std::mem::swap(&mut phase, &mut self.phase);
        match (phase, event) {
            (SendPhase::SavingUser, SendEvent::Saved) => {
                self.phase = SendPhase::AwaitingReply;
                SendAction::Call
            },
            (SendPhase::SavingUser, SendEvent::SaveFailed(e)) => SendAction::Done(Err(e)),
            (SendPhase::AwaitingReply, SendEvent::Replied(resp)) => {
                let content = match resp.get_content() {
                    Ok(c) => c,
                    Err(_) => {
                        proof {
                            reveal_strlit("No response content");
                            assert("No response content"@ =~= missing_reply_text());
                        }
                        "No response content".to_owned()
                    },
                };
                let reply = Message::assistant(
                    self.session_id.clone(),
                    content.clone(),
                    Some(self.model.clone()),
                );
                self.phase = SendPhase::SavingReply(content);
                SendAction::Save(reply)
            },
            (SendPhase::AwaitingReply, SendEvent::CallFailed(e)) => SendAction::Done(Err(e)),
            (SendPhase::SavingReply(c), SendEvent::Saved) => SendAction::Done(Ok(c)),
            (SendPhase::SavingReply(c), SendEvent::SaveFailed(_)) => SendAction::Done(Ok(c)),
            (other, _) => {
                self.phase = other;
                SendAction::Ignore
            },
        }
    }
}

} // verus!
