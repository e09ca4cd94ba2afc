//! JSON documents: what a document holds, as a tree of plain values, and
//! the few operations on documents that the settings file needs. Reading and
//! writing the text itself is left to the JSON library.

use crate::text_map::ascending;
use vstd::prelude::*;

verus! {

/// A JSON value as a tree. A number is held by its decimal text; the
/// members of an object stand in the order in which the library hands them
/// out.
pub enum JsonView {
    Null,
    Bool(bool),
    Number(Seq<char>),
    Text(Seq<char>),
    List(Seq<JsonView>),
    Object(Seq<(Seq<char>, JsonView)>),
}

/// Makes `serde_json::Value` known as a type; nothing inside it is looked at.
#[verifier::external_type_specification]
#[verifier::external_body]
pub struct ExValue(serde_json::Value);

/// The tree that a value of the JSON library holds.
pub uninterp spec fn value_of(value: serde_json::Value) -> JsonView;

/// The tree that the JSON library reads from a text, or the message of its
/// refusal.
pub uninterp spec fn parsed_json(text: Seq<char>) -> Result<JsonView, Seq<char>>;

/// The indented text that the JSON library writes for a tree, or the
/// message of its refusal.
pub uninterp spec fn printed_json(tree: JsonView) -> Result<Seq<char>, Seq<char>>;

/// Members handed out by reference, as plain values.
pub open spec fn borrowed_members(members: Seq<(&str, &serde_json::Value)>) -> Seq<
    (Seq<char>, JsonView),
> {
    Seq::new(members.len(), |i: int| (members[i].0@, value_of(*members[i].1)))
}

/// Members handed in by value, as plain values.
pub open spec fn owned_members(members: Seq<(String, serde_json::Value)>) -> Seq<
    (Seq<char>, JsonView),
> {
    Seq::new(members.len(), |i: int| (members[i].0@, value_of(members[i].1)))
}

/// Calls `serde_json::from_str` for a `serde_json::Value`. Trusted: whether
/// the text is read, the tree read from it and the message of a refusal
/// depend on the text alone.
#[verifier::external_body]
pub(crate) fn parse_value(text: &str) -> (r: Result<serde_json::Value, String>)
    ensures
        match r {
            Ok(value) => parsed_json(text@) == Ok::<JsonView, Seq<char>>(value_of(value)),
            Err(message) => parsed_json(text@) == Err::<JsonView, Seq<char>>(message@),
        },
{
    match serde_json::from_str::<serde_json::Value>(text) {
        Ok(value) => Ok(value),
        Err(e) => Err(e.to_string()),
    }
}

/// Calls `serde_json::to_string_pretty`. Trusted: the text written, or the
/// message of a refusal, depends on the tree alone.
#[verifier::external_body]
pub(crate) fn print_value(value: &serde_json::Value) -> (r: Result<String, String>)
    ensures
        match r {
            Ok(text) => printed_json(value_of(*value)) == Ok::<Seq<char>, Seq<char>>(text@),
            Err(message) => printed_json(value_of(*value)) == Err::<Seq<char>, Seq<char>>(
                message@,
            ),
        },
{
    match serde_json::to_string_pretty(value) {
        Ok(text) => Ok(text),
        Err(e) => Err(e.to_string()),
    }
}

/// Calls `serde_json::Value::is_null`. Trusted: it tells whether the tree
/// is `Null`.
#[verifier::external_body]
pub(crate) fn value_is_null(value: &serde_json::Value) -> (null: bool)
    ensures
        null == (value_of(*value) is Null),
{
    value.is_null()
}

/// Calls `serde_json::Value::as_str`. Trusted: it hands out the text of a
/// tree that is a `Text`, and nothing for any other tree.
#[verifier::external_body]
pub(crate) fn value_text(value: &serde_json::Value) -> (text: Option<&str>)
    ensures
        match text {
            Some(t) => value_of(*value) == JsonView::Text(t@),
            None => !(value_of(*value) is Text),
        },
{
    value.as_str()
}

/// Calls `serde_json::Value::as_object` and walks the map with
/// `serde_json::Map::iter`. Trusted: it hands out the members of a tree that
/// is an `Object`, in their order, and nothing for any other tree.
#[verifier::external_body]
pub(crate) fn value_members<'a>(value: &'a serde_json::Value) -> (members: Option<
    Vec<(&'a str, &'a serde_json::Value)>,
>)
    ensures
        match members {
            Some(list) => value_of(*value) == JsonView::Object(borrowed_members(list@)),
            None => !(value_of(*value) is Object),
        },
{
    match value.as_object() {
        Some(map) => Some(map.iter().map(|(name, member)| (name.as_str(), member)).collect()),
        None => None,
    }
}

/// Builds `serde_json::Value::String`. Trusted: the tree is the `Text` of
/// the string.
#[verifier::external_body]
pub(crate) fn text_value(text: String) -> (value: serde_json::Value)
    ensures
        value_of(value) == JsonView::Text(text@),
{
    serde_json::Value::String(text)
}

/// Builds `serde_json::Value::Object` from members, collected into a
/// `serde_json::Map`. Trusted: for members in ascending order of their
/// names the tree is the `Object` of just those members in that order.
#[verifier::external_body]
pub(crate) fn object_value(members: Vec<(String, serde_json::Value)>) -> (value: serde_json::Value)
    requires
        ascending(owned_members(members@)),
    ensures
        value_of(value) == JsonView::Object(owned_members(members@)),
{
    serde_json::Value::Object(members.into_iter().collect())
}

} // verus!
