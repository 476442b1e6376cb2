//! What the transport client decides: which answers are failures, where the
//! reply text is, which models are offered, and what conversation is sent.

use vstd::prelude::*;
use vstd::string::StrSliceExecFns;
use crate::error::ChatError;
use crate::json::{get_member, json_node, member, node_of, parse_json, parsed_json, text_in, JsonNode};
use crate::models::{role_text, ApiChatResponse, ApiMessage, Message, MessageRole, UsageStats};

verus! {

/// The instruction put first in every conversation sent by the chat service.
pub const DEFAULT_SYSTEM_PROMPT: &'static str = "You are Grok, a helpful and maximally truthful AI built by xAI, not based on any other companies and their models.";

/// Whether an HTTP status is a success.
pub open spec fn is_success(status: u16) -> bool {
    200 <= status <= 299
}

/// Accepts a success status, and turns any other into an upstream failure
/// carrying the status and the body.
pub fn check_status(status: u16, body: String) -> (r: Result<(), ChatError>)
    ensures
        is_success(status) <==> r is Ok,
        !is_success(status) ==> r == Err::<(), ChatError>(ChatError::Upstream { status, body }),
{
    if 200 <= status && status <= 299 {
        Ok(())
    } else {
        Err(ChatError::Upstream { status, body })
    }
}

/// Whether `needle` occurs in `hay`.
pub open spec fn contains_text(hay: Seq<char>, needle: Seq<char>) -> bool {
    exists|i: int| 0 <= i <= hay.len() - needle.len() && #[trigger] hay.subrange(i, i + needle.len()) == needle
}

/// The characters of a string, one by one.
fn chars_of(s: &str) -> (r: Vec<char>)
    ensures
        r@ == s@,
{
    let n = s.unicode_len();
    let mut out: Vec<char> = Vec::new();
    let mut i: usize = 0;
    while i < n
        invariant
            n == s@.len(),
            i <= n,
            out@ == s@.subrange(0, i as int),
        decreases n - i,
    {
        out.push(s.get_char(i));
        i = i + 1;
        proof {
            assert(out@ =~= s@.subrange(0, i as int));
        }
    }
    proof {
        assert(s@.subrange(0, n as int) =~= s@);
    }
    out
}

/// Whether `needle` occurs in `hay` at position `at`.
fn occurs_at(hay: &Vec<char>, needle: &Vec<char>, at: usize) -> (r: bool)
    requires
        at + needle@.len() <= hay@.len(),
    ensures
        r == (hay@.subrange(at as int, at + needle@.len()) == needle@),
{
    let len = hay.len();
    let mut j: usize = 0;
    while j < needle.len()
        invariant
            len == hay@.len(),
            at + needle@.len() <= hay@.len(),
            j <= needle@.len(),
            forall|k: int| 0 <= k < j ==> hay@[at + k] == needle@[k],
        decreases needle@.len() - j,
    {
        if hay[at + j] != needle[j] {
            proof {
                let w = hay@.subrange(at as int, at + needle@.len());
                assert(w[j as int] != needle@[j as int]);
            }
            return false;
        }
        j = j + 1;
    }
    proof {
        assert(hay@.subrange(at as int, at + needle@.len()) =~= needle@);
    }
    true
}

/// Whether `needle` occurs in `hay`.
pub fn contains(hay: &str, needle: &str) -> (r: bool)
    ensures
        r == contains_text(hay@, needle@),
{
    let h = chars_of(hay);
    let n = chars_of(needle);
    if n.len() > h.len() {
        return false;
    }
    let last = h.len() - n.len();
    let mut i: usize = 0;
    loop
        invariant
            h@ == hay@,
            n@ == needle@,
            last == h@.len() - n@.len(),
            i <= last,
            forall|k: int| 0 <= k < i ==> #[trigger] h@.subrange(k, k + n@.len()) != n@,
        decreases last - i,
    {
        if occurs_at(&h, &n, i) {
            return true;
        }
        if i == last {
            return false;
        }
        i = i + 1;
    }
}

pub open spec fn grok_word() -> Seq<char> {
    seq!['g', 'r', 'o', 'k']
}

pub open spec fn vision_word() -> Seq<char> {
    seq!['v', 'i', 's', 'i', 'o', 'n']
}

pub open spec fn image_word() -> Seq<char> {
    seq!['i', 'm', 'a', 'g', 'e']
}

/// Whether a model id names a text model of the provider: it mentions `grok`
/// and neither `vision` nor `image`.
pub open spec fn is_text_model_id(id: Seq<char>) -> bool {
    contains_text(id, grok_word()) && !contains_text(id, vision_word()) && !contains_text(
        id,
        image_word(),
    )
}

/// Whether a model id names a text model of the provider.
pub fn is_text_model(id: &str) -> (r: bool)
    ensures
        r == is_text_model_id(id@),
{
    proof {
        reveal_strlit("grok");
        reveal_strlit("vision");
        reveal_strlit("image");
        assert("grok"@ =~= grok_word());
        assert("vision"@ =~= vision_word());
        assert("image"@ =~= image_word());
    }
    contains(id, "grok") && !contains(id, "vision") && !contains(id, "image")
}

pub open spec fn id_key() -> Seq<char> {
    seq!['i', 'd']
}

pub open spec fn data_key() -> Seq<char> {
    seq!['d', 'a', 't', 'a']
}

/// The `id` text of a listed model, or nothing when it has none.
pub open spec fn model_id(item: serde_json::Value) -> Seq<char> {
    match member(item, id_key()) {
        Some(x) => text_in(x),
        None => Seq::empty(),
    }
}

/// The ids of the listed text models, in list order.
pub open spec fn text_model_ids(items: Seq<serde_json::Value>) -> Seq<Seq<char>>
    decreases items.len(),
{
    if items.len() == 0 {
        Seq::empty()
    } else if is_text_model_id(model_id(items.last())) {
        text_model_ids(items.drop_last()).push(model_id(items.last()))
    } else {
        text_model_ids(items.drop_last())
    }
}

/// The listed models of a models-listing answer, when its `data` is an array.
pub open spec fn listed_models(body: Seq<char>) -> Option<Seq<serde_json::Value>> {
    match parsed_json(body) {
        Some(v) => match member(v, data_key()) {
            Some(d) => match json_node(d) {
                JsonNode::Array(items) => Some(items@),
                _ => None,
            },
            None => None,
        },
        None => None,
    }
}

/// The text models named in the body of a models-listing answer, in list
/// order; a protocol failure when the body has no `data` array.
pub fn models_from_body(body: &str) -> (r: Result<Vec<String>, ChatError>)
    ensures
        listed_models(body@) is None <==> r is Err,
        r matches Err(e) ==> e is Protocol,
        r matches Ok(ids) ==> ids@.map_values(|s: String| s@) == text_model_ids(
            listed_models(body@)->Some_0,
        ),
{
    proof {
        reveal_strlit("data");
        reveal_strlit("id");
        assert("data"@ =~= data_key());
        assert("id"@ =~= id_key());
    }
    let items = match parse_json(body) {
        Some(v) => match get_member(&v, "data") {
            Some(d) => match node_of(&d) {
                JsonNode::Array(items) => items,
                _ => {
                    return Err(ChatError::Protocol("Invalid response format for models".to_owned()));
                },
            },
            None => {
                return Err(ChatError::Protocol("Invalid response format for models".to_owned()));
            },
        },
        None => {
            return Err(ChatError::Protocol("Invalid response format for models".to_owned()));
        },
    };
    let mut out: Vec<String> = Vec::new();
    let mut i: usize = 0;
    while i < items.len()
        invariant
            "id"@ == id_key(),
            i <= items@.len(),
            out@.map_values(|s: String| s@) == text_model_ids(items@.subrange(0, i as int)),
        decreases items@.len() - i,
    {
        let ghost before = out@;
        proof {
            let next = items@.subrange(0, i + 1);
            assert(next.drop_last() =~= items@.subrange(0, i as int));
            assert(next.last() == items@[i as int]);
        }
        let id = match get_member(&items[i], "id") {
            Some(x) => crate::json::get_text(&x),
            None => String::new(),
        };
        if is_text_model(id.as_str()) {
            out.push(id);
            proof {
                assert(out@.map_values(|s: String| s@) =~= before.map_values(|s: String| s@).push(
                    id@,
                ));
            }
        }
        i = i + 1;
    }
    proof {
        assert(items@.subrange(0, items@.len() as int) =~= items@);
    }
    Ok(out)
}

pub open spec fn message_key() -> Seq<char> {
    seq!['m', 'e', 's', 's', 'a', 'g', 'e']
}

/// `choices[0].message.content` of a completion answer, when it is a string.
pub open spec fn reply_text(body: Seq<char>) -> Option<Seq<char>> {
    match parsed_json(body) {
        Some(v) => match member(v, crate::stream::choices_key()) {
            Some(c) => match json_node(c) {
                JsonNode::Array(items) => if items@.len() > 0 {
                    match member(items@[0], message_key()) {
                        Some(m) => match member(m, crate::stream::content_key()) {
                            Some(x) => match json_node(x) {
                                JsonNode::Text(s) => Some(s@),
                                _ => None,
                            },
                            None => None,
                        },
                        None => None,
                    }
                } else {
                    None
                },
                _ => None,
            },
            None => None,
        },
        None => None,
    }
}

/// The reply text of a completion answer: an upstream failure for a status
/// outside 200..=299, a protocol failure when the body lacks
/// `choices[0].message.content`.
pub fn completion_reply(status: u16, body: String) -> (r: Result<String, ChatError>)
    ensures
        !is_success(status) ==> r == Err::<String, ChatError>(
            ChatError::Upstream { status, body },
        ),
        is_success(status) ==> match reply_text(body@) {
            Some(t) => r matches Ok(s) && s@ == t,
            None => r matches Err(e) && e is Protocol,
        },
{
    if !(200 <= status && status <= 299) {
        return Err(ChatError::Upstream { status, body });
    }
    proof {
        reveal_strlit("choices");
        reveal_strlit("message");
        reveal_strlit("content");
        assert("choices"@ =~= crate::stream::choices_key());
        assert("message"@ =~= message_key());
        assert("content"@ =~= crate::stream::content_key());
    }
    let found = match parse_json(body.as_str()) {
        Some(v) => match get_member(&v, "choices") {
            Some(c) => match node_of(&c) {
                JsonNode::Array(items) => if items.len() > 0 {
                    match get_member(&items[0], "message") {
                        Some(m) => match get_member(&m, "content") {
                            Some(x) => match node_of(&x) {
                                JsonNode::Text(s) => Some(s),
                                _ => None,
                            },
                            None => None,
                        },
                        None => None,
                    }
                } else {
                    None
                },
                _ => None,
            },
            None => None,
        },
        None => None,
    };
    match found {
        Some(s) => Ok(s),
        None => Err(ChatError::Protocol("No response content found in API response".to_owned())),
    }
}

/// The role and text of an API message.
pub open spec fn api_view(m: ApiMessage) -> (Seq<char>, Seq<char>) {
    (m.role@, m.content@)
}

/// A stored message as the API takes it.
pub open spec fn projected(m: Message) -> (Seq<char>, Seq<char>) {
    (role_text(m.role), m.content@)
}

/// The conversation sent for a new user turn: the system instruction if any,
/// then the stored messages oldest first, then the new user text.
pub open spec fn conversation_view(
    system: Option<Seq<char>>,
    history: Seq<Message>,
    text: Seq<char>,
) -> Seq<(Seq<char>, Seq<char>)> {
    let head = match system {
        Some(p) => seq![(role_text(MessageRole::System), p)],
        None => Seq::empty(),
    };
    head + history.map_values(|m: Message| projected(m)) + seq![(role_text(MessageRole::User), text)]
}

/// Builds the conversation sent for a new user turn, leaving the stored
/// messages as they are.
pub fn build_conversation(system_prompt: Option<&str>, history: &Vec<Message>, text: &str) -> (r:
    Vec<ApiMessage>)
    ensures
        r@.map_values(|m: ApiMessage| api_view(m)) == conversation_view(
            match system_prompt {
                Some(p) => Some(p@),
                None => None,
            },
            history@,
            text@,
        ),
{
    let mut out: Vec<ApiMessage> = Vec::new();
    let ghost head: Seq<(Seq<char>, Seq<char>)> = match system_prompt {
        Some(p) => seq![(role_text(MessageRole::System), p@)],
        None => Seq::empty(),
    };
    match system_prompt {
        Some(p) => {
            out.push(ApiMessage { role: MessageRole::System.to_string(), content: p.to_owned() });
        },
        None => {},
    }
    proof {
        assert(out@.map_values(|m: ApiMessage| api_view(m)) =~= head);
    }
    let mut i: usize = 0;
    while i < history.len()
        invariant
            i <= history@.len(),
            out@.map_values(|m: ApiMessage| api_view(m)) == head + history@.subrange(
                0,
                i as int,
            ).map_values(|m: Message| projected(m)),
        decreases history@.len() - i,
    {
        let ghost before = out@;
        let m = &history[i];
        out.push(ApiMessage { role: m.role.to_string(), content: m.content.clone() });
        proof {
            assert(history@.subrange(0, i + 1).map_values(|m: Message| projected(m))
                =~= history@.subrange(0, i as int).map_values(|m: Message| projected(m)).push(
                projected(history@[i as int]),
            ));
            assert(out@.map_values(|m: ApiMessage| api_view(m)) =~= before.map_values(
                |m: ApiMessage| api_view(m),
            ).push(api_view(out@.last())));
        }
        i = i + 1;
    }
    let ghost before = out@;
    out.push(ApiMessage { role: MessageRole::User.to_string(), content: text.to_owned() });
    proof {
        assert(history@.subrange(0, history@.len() as int) =~= history@);
        assert(out@.map_values(|m: ApiMessage| api_view(m)) =~= before.map_values(
            |m: ApiMessage| api_view(m),
        ).push(api_view(out@.last())));
    }
    out
}

/// Puts the system instruction, if any, before the messages.
pub fn prepend_system(system_prompt: Option<String>, messages: Vec<ApiMessage>) -> (r: Vec<
    ApiMessage,
>)
    ensures
        r@.map_values(|m: ApiMessage| api_view(m)) == match system_prompt {
            Some(p) => seq![(role_text(MessageRole::System), p@)],
            None => Seq::empty(),
        } + messages@.map_values(|m: ApiMessage| api_view(m)),
{
    let ghost given = messages@;
    let mut out = messages;
    match system_prompt {
        Some(p) => {
            out.insert(0, ApiMessage { role: MessageRole::System.to_string(), content: p });
            proof {
                assert(out@.map_values(|m: ApiMessage| api_view(m)) =~= seq![
                    (role_text(MessageRole::System), p@),
                ] + given.map_values(|m: ApiMessage| api_view(m)));
            }
        },
        None => {
            proof {
                assert(out@.map_values(|m: ApiMessage| api_view(m)) =~= Seq::empty()
                    + given.map_values(|m: ApiMessage| api_view(m)));
            }
        },
    }
    out
}

impl ApiChatResponse {
    /// The message text of the first choice; a protocol failure when there
    /// is no choice or the first one carries no message.
    pub fn get_content(&self) -> (r: Result<String, ChatError>)
        ensures
            (self.choices@.len() > 0 && self.choices@[0].message is Some) <==> r is Ok,
            r matches Ok(s) ==> s == self.choices@[0].message->Some_0.content,
            r matches Err(e) ==> e is Protocol,
    {
        if self.choices.len() == 0 {
            return Err(ChatError::Protocol("No choices in response".to_owned()));
        }
        match &self.choices[0].message {
            Some(m) => Ok(m.content.clone()),
            None => Err(ChatError::Protocol("No message in first choice".to_owned())),
        }
    }

    /// The token counts, when the answer reports them.
    pub fn get_usage(&self) -> (r: Option<&UsageStats>)
        ensures
            r is None <==> self.usage is None,
            r matches Some(u) ==> self.usage == Some(*u),
    {
        match &self.usage {
            Some(u) => Some(u),
            None => None,
        }
    }
}

} // verus!
