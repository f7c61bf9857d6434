//! JSON values, built through `serde_json`.
//!
//! What a `serde_json::Value` holds is its model, a [`JsonView`]. The functions
//! of this module make values by calling `serde_json`; their contracts say what
//! the value that comes back holds.

use vstd::prelude::*;

use serde_json::Map as JsonMap;
use serde_json::Value;

verus! {

/// Model of a JSON value.
pub enum JsonView {
    Null,
    Bool(bool),
    Number(int),
    Text(Seq<char>),
    Array(Seq<JsonView>),
    Object(Map<Seq<char>, JsonView>),
}

/// A JSON value of `serde_json`.
#[verifier::external_type_specification]
#[verifier::external_body]
pub struct ExValue(serde_json::Value);

/// The members of a JSON object of `serde_json`.
#[verifier::external_type_specification]
#[verifier::external_body]
#[verifier::reject_recursive_types(K)]
#[verifier::reject_recursive_types(V)]
pub struct ExMap<K, V>(serde_json::Map<K, V>);

/// What a JSON value holds.
pub uninterp spec fn json_of(value: Value) -> JsonView;

/// The members that an object under construction holds.
pub uninterp spec fn members_of(members: JsonMap<String, Value>) -> Map<Seq<char>, JsonView>;

/// An object without members.
pub open spec fn empty_members() -> Map<Seq<char>, JsonView> {
    Map::empty()
}

/// What each value of a row holds.
pub open spec fn json_row(values: Seq<Value>) -> Seq<JsonView> {
    values.map_values(|v: Value| json_of(v))
}

/// Calls `serde_json::Map::new`: there are no members yet.
#[verifier::external_body]
pub(crate) fn no_members() -> (res: JsonMap<String, Value>)
    ensures
        members_of(res) == empty_members(),
{
    JsonMap::new()
}

/// Calls `serde_json::Map::insert`: afterwards the key has the value, whether
/// or not it had another before, and the other members are as they were.
#[verifier::external_body]
pub(crate) fn insert_member(members: &mut JsonMap<String, Value>, key: &str, value: Value)
    ensures
        members_of(*final(members)) == members_of(*old(members)).insert(key@, json_of(value)),
{
    members.insert(key.to_owned(), value);
}

/// Makes a `serde_json::Value::Object` of the members.
#[verifier::external_body]
pub(crate) fn object_value(members: JsonMap<String, Value>) -> (res: Value)
    ensures
        json_of(res) == JsonView::Object(members_of(members)),
{
    Value::Object(members)
}

/// Makes a `serde_json::Value::Array` of the values, in their order.
#[verifier::external_body]
pub(crate) fn array_value(values: Vec<Value>) -> (res: Value)
    ensures
        json_of(res) == JsonView::Array(json_row(values@)),
{
    Value::Array(values)
}

/// Makes a `serde_json::Value::String` of the text.
#[verifier::external_body]
pub(crate) fn text_value(text: &str) -> (res: Value)
    ensures
        json_of(res) == JsonView::Text(text@),
{
    Value::String(text.to_owned())
}

/// Makes a `serde_json::Value::Bool`.
#[verifier::external_body]
pub(crate) fn bool_value(b: bool) -> (res: Value)
    ensures
        json_of(res) == JsonView::Bool(b),
{
    Value::Bool(b)
}

/// Calls `serde_json::Value::from` on a whole number: the value is that number.
#[verifier::external_body]
pub(crate) fn number_value(n: u64) -> (res: Value)
    ensures
        json_of(res) == JsonView::Number(n as int),
{
    Value::from(n)
}

/// A JSON array of texts.
pub(crate) fn text_array(texts: &[&str]) -> (res: Value)
    ensures
        json_of(res) == JsonView::Array(texts@.map_values(|t: &str| JsonView::Text(t@))),
{
    let mut values: Vec<Value> = Vec::new();
    let mut i: usize = 0;
    while i < texts.len()
        invariant
            i <= texts.len(),
            values.len() == i,
            forall|j: int|
                0 <= j < i ==> json_of(#[trigger] values@[j]) == JsonView::Text(texts@[j]@),
        decreases texts.len() - i,
    {
        values.push(text_value(texts[i]));
        i = i + 1;
    }
    assert(json_row(values@) =~= texts@.map_values(|t: &str| JsonView::Text(t@)));
    array_value(values)
}

} // verus!
