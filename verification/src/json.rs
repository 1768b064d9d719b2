//! JSON documents as the daemon records them: a plain tree of values whose
//! numbers are kept as their literal text.

use vstd::prelude::*;

verus! {

/// A JSON value.
#[derive(Debug, PartialEq, Eq)]
pub enum JsonValue {
    Null,
    Bool(bool),
    /// A number, as its JSON literal text.
    Number(String),
    Text(String),
    Array(Vec<JsonValue>),
    /// An object's members in order, each a key and its value.
    Object(Vec<(String, JsonValue)>),
}

/// The mathematical model of a JSON value.
pub enum JsonTree {
    Null,
    Bool(bool),
    Number(Seq<char>),
    Text(Seq<char>),
    Array(Seq<JsonTree>),
    Object(Seq<(Seq<char>, JsonTree)>),
}

pub open spec fn json_tree(v: JsonValue) -> JsonTree
    decreases v,
{
    match v {
        JsonValue::Null => JsonTree::Null,
        JsonValue::Bool(b) => JsonTree::Bool(b),
        JsonValue::Number(n) => JsonTree::Number(n@),
        JsonValue::Text(t) => JsonTree::Text(t@),
        JsonValue::Array(items) => JsonTree::Array(json_trees(items@)),
        JsonValue::Object(entries) => JsonTree::Object(json_members(entries@)),
    }
}

pub open spec fn json_trees(s: Seq<JsonValue>) -> Seq<JsonTree>
    decreases s,
{
    if s.len() == 0 {
        Seq::empty()
    } else {
        json_trees(s.drop_last()).push(json_tree(s.last()))
    }
}

pub open spec fn json_members(s: Seq<(String, JsonValue)>) -> Seq<(Seq<char>, JsonTree)>
    decreases s,
{
    if s.len() == 0 {
        Seq::empty()
    } else {
        proof {
            assert(decreases_to!(s => s.last()));
        }
        json_members(s.drop_last()).push((s.last().0@, json_tree(s.last().1)))
    }
}

impl View for JsonValue {
    type V = JsonTree;

    open spec fn view(&self) -> JsonTree {
        json_tree(*self)
    }
}

/// The models of a sequence of values, element by element.
pub proof fn lemma_json_trees(s: Seq<JsonValue>)
    ensures
        json_trees(s).len() == s.len(),
        forall|i: int| 0 <= i < s.len() ==> #[trigger] json_trees(s)[i] == json_tree(s[i]),
    decreases s.len(),
{
    if s.len() > 0 {
        lemma_json_trees(s.drop_last());
    }
}

/// The models of a sequence of members, member by member.
pub proof fn lemma_json_members(s: Seq<(String, JsonValue)>)
    ensures
        json_members(s).len() == s.len(),
        forall|i: int| 0 <= i < s.len() ==> #[trigger] json_members(s)[i] == (s[i].0@, json_tree(s[i].1)),
    decreases s.len(),
{
    if s.len() > 0 {
        lemma_json_members(s.drop_last());
    }
}

/// `serde_json::Value`, carried through as an opaque value.
#[verifier::external_type_specification]
#[verifier::external_body]
pub struct ExSerdeJsonValue(serde_json::Value);

/// The JSON document a text holds as `serde_json` reads it into a
/// `serde_json::Value` (objects with their keys in `serde_json`'s map order,
/// numbers as `serde_json` prints them), or none when the text is not JSON.
pub uninterp spec fn json_text_tree(text: Seq<char>) -> Option<JsonTree>;

/// Turns a `serde_json::Value` into a `JsonValue`, variant by variant; a
/// number keeps the text `serde_json` prints for it. Used by `parse_json`
/// alone, whose contract covers it.
#[verifier::external_body]
fn json_of_serde(value: serde_json::Value) -> (j: JsonValue) {
    match value {
        serde_json::Value::Null => JsonValue::Null,
        serde_json::Value::Bool(b) => JsonValue::Bool(b),
        serde_json::Value::Number(n) => JsonValue::Number(n.to_string()),
        serde_json::Value::String(s) => JsonValue::Text(s),
        serde_json::Value::Array(items) => JsonValue::Array(items.into_iter().map(json_of_serde).collect()),
        serde_json::Value::Object(members) => JsonValue::Object(members.into_iter().map(|(k, v)| (k, json_of_serde(v))).collect()),
    }
}

/// Calls `serde_json::from_str` for a `serde_json::Value`: the document the
/// text holds, or none when it is not JSON; the result is the named
/// `json_text_tree` of the text.
#[verifier::external_body]
pub(crate) fn parse_json(text: &str) -> (r: Option<JsonValue>)
    ensures
        match r {
            Some(j) => json_text_tree(text@) == Some(j@),
            None => json_text_tree(text@) is None,
        },
{
    serde_json::from_str::<serde_json::Value>(text).ok().map(json_of_serde)
}

} // verus!
