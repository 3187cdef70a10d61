//! JSON documents as trees, and the parser that reads them.

use vstd::prelude::*;

verus! {

#[verifier::external_type_specification]
#[verifier::external_body]
pub struct ExJsonValue(serde_json::Value);

/// A JSON number: an integer, or a number that is not held as an integer
/// (such as one written with a fraction or an exponent, or one that lies
/// outside the 64-bit ranges).
pub enum JsonNumber {
    Integer(int),
    Real,
}

/// A JSON document. The members of an object stand in document order.
pub enum JsonTree {
    Null,
    Bool(bool),
    Number(JsonNumber),
    Text(Seq<char>),
    Array(Seq<JsonTree>),
    Object(Seq<(Seq<char>, JsonTree)>),
}

/// What parsing `text` as JSON gives: the document, or the parser's message.
pub uninterp spec fn json_parse(text: Seq<char>) -> Result<JsonTree, Seq<char>>;

/// The document that a parsed value holds.
pub uninterp spec fn json_tree(value: serde_json::Value) -> JsonTree;

/// The members of an object as keys and documents.
pub open spec fn member_trees(members: Seq<(&String, &serde_json::Value)>) -> Seq<
    (Seq<char>, JsonTree),
> {
    Seq::new(members.len(), |i: int| (members[i].0@, json_tree(*members[i].1)))
}

/// No key occurs twice.
pub open spec fn distinct_keys<T>(entries: Seq<(Seq<char>, T)>) -> bool {
    forall|i: int, j: int|
        0 <= i < j < entries.len() ==> (#[trigger] entries[i]).0 != (#[trigger] entries[j]).0
}

/// `serde_json::from_str` at `serde_json::Value`: parses `text`. The result
/// depends on the text alone: the value read, or the text of the error.
#[verifier::external_body]
pub(crate) fn parse(text: &str) -> (r: Result<serde_json::Value, String>)
    ensures
        match r {
            Ok(value) => json_parse(text@) == Ok::<JsonTree, Seq<char>>(json_tree(value)),
            Err(message) => json_parse(text@) == Err::<JsonTree, Seq<char>>(message@),
        },
{
    match serde_json::from_str::<serde_json::Value>(text) {
        Ok(value) => Ok(value),
        Err(error) => Err(error.to_string()),
    }
}

/// `Value::as_object` and `Map::iter`: the members of an object in the order
/// the map yields them, `None` for any other value. A map holds no key twice.
#[verifier::external_body]
pub(crate) fn object_members(value: &serde_json::Value) -> (r: Option<
    Vec<(&String, &serde_json::Value)>,
>)
    ensures
        match json_tree(*value) {
            JsonTree::Object(members) => r matches Some(list) && member_trees(list@) == members,
            _ => r is None,
        },
        r matches Some(list) ==> distinct_keys(member_trees(list@)),
{
    match value.as_object() {
        Some(map) => Some(map.iter().collect()),
        None => None,
    }
}

/// `Value::as_str`: the text of a string, `None` for any other value.
#[verifier::external_body]
pub(crate) fn string_text(value: &serde_json::Value) -> (r: Option<&str>)
    ensures
        match json_tree(*value) {
            JsonTree::Text(text) => r matches Some(s) && s@ == text,
            _ => r is None,
        },
{
    value.as_str()
}

/// `Value::as_u64`: a number that is an integer from 0 to `u64::MAX`, `None`
/// for any other value.
#[verifier::external_body]
pub(crate) fn unsigned_number(value: &serde_json::Value) -> (r: Option<u64>)
    ensures
        match json_tree(*value) {
            JsonTree::Number(JsonNumber::Integer(n)) if 0 <= n <= u64::MAX => r == Some(n as u64),
            _ => r is None,
        },
{
    value.as_u64()
}

/// `Value::as_i64`: a number that is an integer from `i64::MIN` to
/// `i64::MAX`, `None` for any other value.
#[verifier::external_body]
pub(crate) fn signed_number(value: &serde_json::Value) -> (r: Option<i64>)
    ensures
        match json_tree(*value) {
            JsonTree::Number(JsonNumber::Integer(n)) if i64::MIN <= n <= i64::MAX => r == Some(
                n as i64,
            ),
            _ => r is None,
        },
{
    value.as_i64()
}

/// `Value::is_null`: whether the value is JSON `null`.
#[verifier::external_body]
pub(crate) fn is_null(value: &serde_json::Value) -> (b: bool)
    ensures
        b == (json_tree(*value) is Null),
{
    value.is_null()
}

/// `Value::clone`: a copy that holds the same document.
#[verifier::external_body]
pub(crate) fn duplicate(value: &serde_json::Value) -> (r: serde_json::Value)
    ensures
        json_tree(r) == json_tree(*value),
{
    value.clone()
}

} // verus!
