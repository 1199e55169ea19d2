//! JSON documents as plain values.
//!
//! Reading JSON text is left to `serde_json`. What it reads is copied into a
//! tree of the library's own, which the rest of the library walks.

use crate::action::owned;
use vstd::prelude::*;

verus! {

/// A value of `serde_json`, as that crate built it.
#[verifier::external_type_specification]
#[verifier::external_body]
pub struct ExJsonValue(serde_json::Value);

/// The reason that `serde_json` gives when it rejects a text.
#[verifier::external_type_specification]
#[verifier::external_body]
pub struct ExJsonError(serde_json::Error);

/// A JSON value. Of a number only its presence is kept; the members of an
/// object are kept as pairs of key and value, each key once.
#[derive(Debug)]
pub enum Json {
    Null,
    Bool(bool),
    Number,
    Text(String),
    List(Vec<Json>),
    Record(Vec<(String, Json)>),
}

/// The tree that a value of `serde_json` holds.
pub uninterp spec fn json_contents(value: serde_json::Value) -> Json;

/// The document that `serde_json` reads from a text, or `None` for a text that
/// it rejects.
pub uninterp spec fn json_text(text: Seq<char>) -> Option<Json>;

/// Calls `serde_json::from_str` for a `serde_json::Value`. The call reads the
/// whole text as one JSON document and fails on anything else; what it returns
/// depends on the text alone. The contract gives that result its name,
/// `json_text`, and says nothing more of it.
#[verifier::external_body]
fn json_from_str(text: &str) -> (r: Result<serde_json::Value, serde_json::Error>)
    ensures
        match r {
            Ok(value) => json_text(text@) == Some(json_contents(value)),
            Err(_) => json_text(text@) is None,
        },
{
    serde_json::from_str::<serde_json::Value>(text)
}

/// Copies a `serde_json::Value` into a `Json`, variant by variant: a string
/// and a boolean with what they hold, a number without, the items of an array
/// in their order, the members of an object in the order in which
/// `serde_json` hands them out. The contract names the copy `json_contents`.
#[verifier::external_body]
fn json_tree(value: &serde_json::Value) -> (tree: Json)
    ensures
        tree == json_contents(*value),
{
    match value {
        serde_json::Value::Null => Json::Null,
        serde_json::Value::Bool(flag) => Json::Bool(*flag),
        serde_json::Value::Number(_) => Json::Number,
        serde_json::Value::String(text) => Json::Text(text.clone()),
        serde_json::Value::Array(items) => Json::List(items.iter().map(json_tree).collect()),
        serde_json::Value::Object(members) => Json::Record(
            members.keys().cloned().zip(members.values().map(json_tree)).collect(),
        ),
    }
}

/// The value under `key` among the members of an object: that of the first
/// member with this key.
pub open spec fn member(members: Seq<(String, Json)>, key: Seq<char>) -> Option<Json>
    decreases members.len(),
{
    if members.len() == 0 {
        None
    } else if members[0].0@ == key {
        Some(members[0].1)
    } else {
        member(members.drop_first(), key)
    }
}

/// Reads a text as one JSON document. `None` means that the text is no JSON.
pub fn parse_json(text: &str) -> (document: Option<Json>)
    ensures
        document == json_text(text@),
{
    match json_from_str(text) {
        Ok(value) => Some(json_tree(&value)),
        Err(_) => None,
    }
}

/// Looks up the value under `key` among the members of an object.
pub fn lookup<'a>(members: &'a Vec<(String, Json)>, key: &str) -> (found: Option<&'a Json>)
    ensures
        match found {
            Some(item) => member(members@, key@) == Some(*item),
            None => member(members@, key@) is None,
        },
{
    let wanted = owned(key);
    let mut i: usize = 0;
    assert(members@.subrange(0, members.len() as int) =~= members@);
    while i < members.len()
        invariant
            i <= members.len(),
            wanted@ == key@,
            member(members@, key@) == member(members@.subrange(i as int, members.len() as int), key@),
        decreases members.len() - i,
    {
        let ghost rest = members@.subrange(i as int, members.len() as int);
        assert(rest[0] == members@[i as int]);
        if members[i].0 == wanted {
            return Some(&members[i].1);
        }
        assert(rest.drop_first() =~= members@.subrange(i + 1, members.len() as int));
        i += 1;
    }
    assert(members@.subrange(i as int, members.len() as int).len() == 0);
    None
}

} // verus!
