//! JSON values, which the library carries but does not look into, but for a few questions.

use vstd::prelude::*;

use serde_json::Value;

use crate::text::opt_view;

verus! {

/// The JSON values of the `serde_json` crate.
#[verifier::external_type_specification]
#[verifier::external_body]
pub struct ExValue(Value);

/// The compact JSON text of a value.
pub uninterp spec fn json_text(value: Value) -> Seq<char>;

/// What `serde_json` makes of a text: the compact text of the value that it reads, or the message
/// of the error that it reports.
pub uninterp spec fn json_read(text: Seq<char>) -> Result<Seq<char>, Seq<char>>;

/// Calls `to_string` of a `Value`, which writes its compact JSON text, the same that
/// `serde_json::to_string` writes.
#[verifier::external_body]
pub(crate) fn write_json(value: &Value) -> (r: String)
    ensures
        r@ == json_text(*value),
{
    value.to_string()
}

/// Calls `serde_json::from_str`, which reads one JSON value from the whole of `text`. The value,
/// up to its compact text, and the message of an error depend on the text alone.
#[verifier::external_body]
pub(crate) fn read_json(text: &str) -> (r: Result<Value, String>)
    ensures
        r matches Ok(value) ==> json_read(text@) is Ok && json_read(text@)->Ok_0 == json_text(value),
        r matches Err(message) ==> json_read(text@) is Err && json_read(text@)->Err_0 == message@,
{
    match serde_json::from_str::<Value>(text) {
        Ok(value) => Ok(value),
        Err(error) => Err(error.to_string()),
    }
}

/// Calls `Clone::clone` of a value, which copies it whole, so that the copy has the same text.
#[verifier::external_body]
pub(crate) fn clone_json(value: &Value) -> (r: Value)
    ensures
        json_text(r) == json_text(*value),
{
    value.clone()
}

/// Calls `Value::is_object`. The compact text of an object, and of no other value, begins with an
/// opening brace.
#[verifier::external_body]
pub(crate) fn is_json_object(value: &Value) -> (r: bool)
    ensures
        r == is_object_text(json_text(*value)),
{
    value.is_object()
}

/// Whether a compact JSON text is that of an object.
pub open spec fn is_object_text(text: Seq<char>) -> bool {
    text.len() > 0 && text[0] == '{'
}

/// Whether a key is written as it is, without escapes.
pub open spec fn is_plain_key(key: Seq<char>) -> bool {
    forall|i: int|
        0 <= i < key.len() ==> #[trigger] key[i] != '"' && key[i] != '\\' && key[i] as u32 >= 32
}

/// Calls `serde_json::Map::insert` on an empty map, for an object with one member. Its compact text
/// is the quoted key, a colon and the member's text, in braces. What is written for a key that
/// needs escapes is left unsaid.
#[verifier::external_body]
pub(crate) fn object_of(key: &str, value: Value) -> (r: Value)
    ensures
        is_plain_key(key@) ==> json_text(r) == "{\""@ + key@ + "\":"@ + json_text(value) + "}"@,
{
    let mut members = serde_json::Map::new();
    let _ = members.insert(key.to_string(), value);
    Value::Object(members)
}

/// The string that an object with the given compact text has as a member; `None` if there is no
/// such member, or it is no string.
pub uninterp spec fn json_string_member(text: Seq<char>, key: Seq<char>) -> Option<Seq<char>>;

/// Calls `Value::get` with a key, and `Value::as_str` on what it finds. The outcome depends on the
/// value, up to its compact text, and on the key.
#[verifier::external_body]
pub(crate) fn string_member(value: &Value, key: &str) -> (r: Option<String>)
    ensures
        opt_view(r) == json_string_member(json_text(*value), key@),
{
    value.get(key).and_then(Value::as_str).map(str::to_string)
}

/// The compact text of an optional value.
pub open spec fn opt_json_text(value: Option<Value>) -> Option<Seq<char>> {
    match value {
        Some(v) => Some(json_text(v)),
        None => None,
    }
}

/// The compact texts of a list of values.
pub open spec fn json_texts(values: Seq<Value>) -> Seq<Seq<char>> {
    values.map_values(|v: Value| json_text(v))
}

/// The compact texts of an optional list of values.
pub open spec fn opt_json_texts(values: Option<Vec<Value>>) -> Option<Seq<Seq<char>>> {
    match values {
        Some(v) => Some(json_texts(v@)),
        None => None,
    }
}

/// Values are shown by their texts, in order, and the text of an object begins with a brace.
pub proof fn law_json_texts(value: Option<Value>, values: Seq<Value>, list: Option<Vec<Value>>)
    ensures
        opt_json_text(value) is Some <==> value is Some,
        value is Some ==> opt_json_text(value)->0 == json_text(value->0),
        json_texts(values).len() == values.len(),
        forall|i: int| 0 <= i < values.len() ==> #[trigger] json_texts(values)[i] == json_text(
            values[i],
        ),
        opt_json_texts(list) is Some <==> list is Some,
        list is Some ==> opt_json_texts(list)->0 == json_texts(list->0@),
        forall|text: Seq<char>|
            #[trigger] is_object_text(text) <==> text.len() > 0 && text[0] == '{',
{
}

} // verus!
