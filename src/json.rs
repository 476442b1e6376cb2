//! Reading structured events: JSON text is parsed by serde_json, and each value
//! is looked at one level at a time through `JsonNode`.

use vstd::prelude::*;
use crate::text::same_text;

verus! {

#[verifier::external_type_specification]
#[verifier::external_body]
pub struct ExJsonValue(serde_json::Value);

/// One level of a JSON value: its kind, and for text, arrays and objects what
/// they hold. Numbers carry no payload here, as nothing in this library reads them.
pub enum JsonNode {
    Null,
    Bool(bool),
    Number,
    Text(String),
    Array(Vec<serde_json::Value>),
    Object(Vec<(String, serde_json::Value)>),
}

/// The document that serde_json reads from a text, if the text is one JSON value.
pub uninterp spec fn parsed_json(text: Seq<char>) -> Option<serde_json::Value>;

/// The top level of a JSON value, as serde_json holds it.
pub uninterp spec fn json_node(v: serde_json::Value) -> JsonNode;

/// Relies on serde_json::from_str::<Value>: the value that the text holds, or
/// an error (here None) when it is not exactly one JSON value.
#[verifier::external_body]
pub(crate) fn parse_json(text: &str) -> (r: Option<serde_json::Value>)
    ensures
        r == parsed_json(text@),
{
    serde_json::from_str::<serde_json::Value>(text).ok()
}

/// Relies on the variants of serde_json::Value and on Map's IntoIterator,
/// which hands out each member of an object once: carries each variant over
/// to JsonNode.
#[verifier::external_body]
pub(crate) fn node_of(v: &serde_json::Value) -> (r: JsonNode)
    ensures
        r == json_node(*v),
{
    match v {
        serde_json::Value::Null => JsonNode::Null,
        serde_json::Value::Bool(b) => JsonNode::Bool(*b),
        serde_json::Value::Number(_) => JsonNode::Number,
        serde_json::Value::String(s) => JsonNode::Text(s.clone()),
        serde_json::Value::Array(a) => JsonNode::Array(a.clone()),
        serde_json::Value::Object(m) => JsonNode::Object(m.clone().into_iter().collect()),
    }
}

/// The value stored under `key` among the members of an object: the first
/// member with that name.
pub open spec fn field(fields: Seq<(String, serde_json::Value)>, key: Seq<char>) -> Option<
    serde_json::Value,
>
    decreases fields.len(),
{
    if fields.len() == 0 {
        None
    } else if fields[0].0@ == key {
        Some(fields[0].1)
    } else {
        field(fields.drop_first(), key)
    }
}

/// The member `key` of `v`, when `v` is an object that has one.
pub open spec fn member(v: serde_json::Value, key: Seq<char>) -> Option<serde_json::Value> {
    match json_node(v) {
        JsonNode::Object(fields) => field(fields@, key),
        _ => None,
    }
}

/// The text that `v` holds, or nothing when it is not a string.
pub open spec fn text_in(v: serde_json::Value) -> Seq<char> {
    match json_node(v) {
        JsonNode::Text(s) => s@,
        _ => Seq::empty(),
    }
}

/// Takes the value stored under `key` out of the members of an object.
pub fn take_field(members: Vec<(String, serde_json::Value)>, key: &str) -> (r: Option<
    serde_json::Value,
>)
    ensures
        r == field(members@, key@),
{
    let mut fields = members;
    let ghost all = fields@;
    let n = fields.len();
    let mut i: usize = 0;
    proof {
        assert(all.subrange(0, n as int) =~= all);
    }
    while i < n
        invariant
            n == all.len(),
            all == members@,
            fields@ == all,
            i <= n,
            field(all.subrange(i as int, n as int), key@) == field(all, key@),
        decreases n - i,
    {
        let ghost rest = all.subrange(i as int, n as int);
        proof {
            assert(rest[0] == all[i as int]);
            assert(rest.drop_first() =~= all.subrange(i + 1, n as int));
        }
        if same_text(fields[i].0.as_str(), key) {
            let (_, v) = fields.remove(i);
            proof {
                assert(rest[0].0@ == key@);
                assert(v == rest[0].1);
            }
            return Some(v);
        }
        i = i + 1;
    }
    proof {
        assert(all.subrange(n as int, n as int).len() == 0);
    }
    None
}

/// The member `key` of `v`, when `v` is an object that has one.
pub fn get_member(v: &serde_json::Value, key: &str) -> (r: Option<serde_json::Value>)
    ensures
        r == member(*v, key@),
{
    match node_of(v) {
        JsonNode::Object(fields) => take_field(fields, key),
        _ => None,
    }
}

/// The text that `v` holds, or an empty string when it is not a string.
pub fn get_text(v: &serde_json::Value) -> (r: String)
    ensures
        r@ == text_in(*v),
{
    match node_of(v) {
        JsonNode::Text(s) => s,
        _ => String::new(),
    }
}

} // verus!
