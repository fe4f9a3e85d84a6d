//! JSON documents: the tree that a song file is read into before a song is
//! made of it.
//!
//! The text is parsed by `serde_json`. What the parser returns is copied,
//! node by node, into [`Json`], a tree of plain values that the rest of the
//! crate reads with the accessors below.

use vstd::prelude::*;
use serde_json::Value;
use crate::text::{chars_of, is_text};

verus! {

/// A number of a document, as far as it is a whole number: its value as an
/// unsigned and as a signed number, each where the number is one. A number
/// with a fraction or an exponent is neither.
#[derive(Clone, Copy, Debug, PartialEq, Eq)]
pub struct JsonNumber {
    pub unsigned: Option<u64>,
    pub signed: Option<i64>,
}

/// A node of a document.
#[derive(Debug)]
pub enum Json {
    Null,
    Bool(bool),
    Number(JsonNumber),
    Text(String),
    /// An array, with its items in order.
    List(Vec<Json>),
    /// An object, with its members as pairs of name and value. No name
    /// occurs twice.
    Record(Vec<(String, Json)>),
}

/// Trusted: declares `serde_json::Value`, the parser's own tree, as a type
/// whose values are carried about and never looked into here.
#[verifier::external_type_specification]
#[verifier::external_body]
pub struct ExValue(serde_json::Value);

/// Trusted: declares `serde_json::Error`, the parser's error, as a type
/// whose values are carried about and never looked into here.
#[verifier::external_type_specification]
#[verifier::external_body]
pub struct ExError(serde_json::Error);

/// The document that `text` is parsed into by `serde_json::from_str`, or
/// `None` where the parser rejects the text.
pub uninterp spec fn parsed_document(text: Seq<char>) -> Option<Json>;

/// The document that a value of the parser holds.
pub uninterp spec fn document_of(value: serde_json::Value) -> Json;

/// Parses `text` as one JSON value.
///
/// Trusted: the body calls `serde_json::from_str` for a `serde_json::Value`.
/// The contract names the outcome and claims nothing more of it: the call
/// succeeds exactly where `parsed_document` gives a document, and the value
/// returned holds that document.
#[verifier::external_body]
pub(crate) fn parse_value(text: &str) -> (parsed: Result<serde_json::Value, serde_json::Error>)
    ensures
        match parsed {
            Ok(value) => parsed_document(text@) == Some(document_of(value)),
            Err(_) => parsed_document(text@) is None,
        },
{
    serde_json::from_str::<serde_json::Value>(text)
}

/// Copies a value of the parser into a document, node by node.
///
/// Trusted: the body tells the six variants of `serde_json::Value` apart and
/// moves what each holds. A number is asked for its value with
/// `Number::as_u64` and `Number::as_i64`; the members of an object are taken
/// from `Map::iter`. The contract names the result.
#[verifier::external_body]
pub(crate) fn to_document(value: &serde_json::Value) -> (doc: Json)
    ensures
        doc == document_of(*value),
{
    match value {
        Value::Null => Json::Null,
        Value::Bool(b) => Json::Bool(*b),
        Value::Number(n) => Json::Number(JsonNumber { unsigned: n.as_u64(), signed: n.as_i64() }),
        Value::String(s) => Json::Text(s.clone()),
        Value::Array(items) => Json::List(items.iter().map(to_document).collect()),
        Value::Object(members) => Json::Record(
            members.iter().map(|(name, item)| (name.clone(), to_document(item))).collect(),
        ),
    }
}

/// The value of the first member of `members` that is named `name`.
pub open spec fn member(members: Seq<(String, Json)>, name: Seq<char>) -> Option<Json>
    decreases members.len(),
{
    if members.len() == 0 {
        None
    } else if members[0].0@ == name {
        Some(members[0].1)
    } else {
        member(members.skip(1), name)
    }
}

/// The string that `value` is, if it is one.
pub open spec fn as_text(value: Option<Json>) -> Option<Seq<char>> {
    match value {
        Some(Json::Text(text)) => Some(text@),
        _ => None,
    }
}

/// The number from 0 to 18446744073709551615 that `value` is, if it is one.
pub open spec fn as_u64(value: Option<Json>) -> Option<u64> {
    match value {
        Some(Json::Number(number)) => number.unsigned,
        _ => None,
    }
}

/// The number from 0 to 4294967295 that `value` is, if it is one.
pub open spec fn as_u32(value: Option<Json>) -> Option<u32> {
    match as_u64(value) {
        Some(number) => if number <= u32::MAX {
            Some(number as u32)
        } else {
            None
        },
        None => None,
    }
}

/// The number from -2147483648 to 2147483647 that `value` is, if it is one.
pub open spec fn as_i32(value: Option<Json>) -> Option<i32> {
    match value {
        Some(Json::Number(number)) => match number.signed {
            Some(signed) => if i32::MIN <= signed <= i32::MAX {
                Some(signed as i32)
            } else {
                None
            },
            None => None,
        },
        _ => None,
    }
}

/// The value behind an optional reference.
pub open spec fn deref_json(value: Option<&Json>) -> Option<Json> {
    match value {
        Some(json) => Some(*json),
        None => None,
    }
}

/// The value of the member of `members` that is named `name`.
pub fn find_member<'a>(members: &'a Vec<(String, Json)>, name: &str) -> (found: Option<&'a Json>)
    ensures
        found == match member(members@, name@) {
            Some(value) => Some(&value),
            None => None,
        },
{
    let mut i: usize = 0;
    assert(members@.skip(0) == members@);
    while i < members.len()
        invariant
            i <= members.len(),
            member(members@, name@) == member(members@.skip(i as int), name@),
        decreases members.len() - i,
    {
        let chars = chars_of(members[i].0.as_str());
        if is_text(chars.as_slice(), name) {
            return Some(&members[i].1);
        }
        assert(members@.skip(i as int).skip(1) == members@.skip(i + 1));
        i = i + 1;
    }
    None
}

/// The string that `value` is.
pub fn text_in(value: Option<&Json>) -> (text: Option<String>)
    ensures
        text is Some <==> as_text(deref_json(value)) is Some,
        text is Some ==> text->Some_0@ == as_text(deref_json(value))->Some_0,
{
    match value {
        Some(Json::Text(text)) => Some(text.clone()),
        _ => None,
    }
}

/// The unsigned number that `value` is.
pub fn u64_in(value: Option<&Json>) -> (number: Option<u64>)
    ensures
        number == as_u64(deref_json(value)),
{
    match value {
        Some(Json::Number(number)) => number.unsigned,
        _ => None,
    }
}

/// The 32-bit unsigned number that `value` is.
pub fn u32_in(value: Option<&Json>) -> (number: Option<u32>)
    ensures
        number == as_u32(deref_json(value)),
{
    match u64_in(value) {
        Some(number) => if number <= u32::MAX as u64 {
            Some(number as u32)
        } else {
            None
        },
        None => None,
    }
}

/// The 32-bit signed number that `value` is.
pub fn i32_in(value: Option<&Json>) -> (number: Option<i32>)
    ensures
        number == as_i32(deref_json(value)),
{
    match value {
        Some(Json::Number(number)) => match number.signed {
            Some(signed) => if i32::MIN as i64 <= signed && signed <= i32::MAX as i64 {
                Some(signed as i32)
            } else {
                None
            },
            None => None,
        },
        _ => None,
    }
}

} // verus!
