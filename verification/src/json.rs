//! JSON values of `serde_json`, seen as mathematical trees.
//!
//! The request bodies and replies of this crate are `serde_json::Value`s. Their
//! contents are spoken of as [`Json`]; the functions here are the few operations
//! of `serde_json` that the crate calls, and nothing is proved of them.

use vstd::prelude::*;
use vstd::utf8::encode_utf8;

verus! {

/// What a JSON value holds.
pub enum Json {
    Null,
    Bool(bool),
    /// A whole number.
    Int(int),
    /// A number that is not held as a whole one, by the bits of its double.
    Double(u64),
    Str(Seq<char>),
    Arr(Seq<Json>),
    Obj(Map<Seq<char>, Json>),
}

/// A JSON value of `serde_json`.
#[verifier::external_type_specification]
#[verifier::external_body]
pub struct ExValue(serde_json::Value);

/// The error of `serde_json`.
#[verifier::external_type_specification]
#[verifier::external_body]
pub struct ExJsonError(serde_json::Error);

/// The member table of a JSON object.
#[verifier::external_type_specification]
#[verifier::external_body]
#[verifier::reject_recursive_types(K)]
#[verifier::reject_recursive_types(V)]
pub struct ExMembers<K, V>(serde_json::Map<K, V>);

/// The tree that a `serde_json::Value` holds.
pub uninterp spec fn tree(value: serde_json::Value) -> Json;

/// The members that a `serde_json::Map` holds.
pub uninterp spec fn members(
    table: serde_json::Map<String, serde_json::Value>,
) -> Map<Seq<char>, Json>;

/// The text that `serde_json::to_string` writes for a value.
pub uninterp spec fn written(value: Json) -> Seq<char>;

/// The tree of the value that `serde_json::from_slice` reads from some bytes, if it reads one.
pub uninterp spec fn parsed(bytes: Seq<u8>) -> Option<Json>;

/// The member `key` of an object; other values have none.
pub open spec fn field(value: Json, key: Seq<char>) -> Option<Json> {
    match value {
        Json::Obj(m) => if m.dom().contains(key) {
            Some(m[key])
        } else {
            None
        },
        _ => None,
    }
}

/// The item `index` of an array; other values have none.
pub open spec fn nth(value: Json, index: int) -> Option<Json> {
    match value {
        Json::Arr(items) => if 0 <= index < items.len() {
            Some(items[index])
        } else {
            None
        },
        _ => None,
    }
}

/// The text of a string; other values have none.
pub open spec fn text_in(value: Json) -> Option<Seq<char>> {
    match value {
        Json::Str(text) => Some(text),
        _ => None,
    }
}

/// The trees of a list of values.
pub open spec fn trees(values: Seq<serde_json::Value>) -> Seq<Json> {
    values.map_values(|v: serde_json::Value| tree(v))
}

/// `serde_json::Value::String` makes a string value of the given text.
#[verifier::external_body]
pub(crate) fn string_value(text: String) -> (value: serde_json::Value)
    ensures
        tree(value) == Json::Str(text@),
{
    serde_json::Value::String(text)
}

/// `serde_json::Value::from` makes a number value of a whole number.
#[verifier::external_body]
pub(crate) fn number_value(n: u32) -> (value: serde_json::Value)
    ensures
        tree(value) == Json::Int(n as int),
{
    serde_json::Value::from(n)
}

/// `serde_json::Value::Array` makes an array value of the given items, in order.
#[verifier::external_body]
pub(crate) fn array_value(items: Vec<serde_json::Value>) -> (value: serde_json::Value)
    ensures
        tree(value) == Json::Arr(trees(items@)),
{
    serde_json::Value::Array(items)
}

/// `serde_json::Value::Object` makes an object value of the given members.
#[verifier::external_body]
pub(crate) fn object_value(
    table: serde_json::Map<String, serde_json::Value>,
) -> (value: serde_json::Value)
    ensures
        tree(value) == Json::Obj(members(table)),
{
    serde_json::Value::Object(table)
}

/// `serde_json::Map::new` makes a table without members.
#[verifier::external_body]
pub(crate) fn no_members() -> (table: serde_json::Map<String, serde_json::Value>)
    ensures
        (members(table) == Map::<Seq<char>, Json>::empty()),
{
    serde_json::Map::new()
}

/// `serde_json::Map::insert` binds a key to a value, in place of an earlier one.
#[verifier::external_body]
pub(crate) fn put(
    table: &mut serde_json::Map<String, serde_json::Value>,
    key: String,
    value: serde_json::Value,
)
    ensures
        members(*final(table)) == members(*old(table)).insert(key@, tree(value)),
{
    table.insert(key, value);
}

/// `serde_json::Value::get` with a key finds a member of an object, and nothing elsewhere.
#[verifier::external_body]
pub(crate) fn member<'a>(value: &'a serde_json::Value, key: &str) -> (found: Option<
    &'a serde_json::Value,
>)
    ensures
        match found {
            Some(v) => field(tree(*value), key@) == Some(tree(*v)),
            None => field(tree(*value), key@) is None,
        },
{
    value.get(key)
}

/// `serde_json::Value::get` with an index finds an item of an array, and nothing elsewhere.
#[verifier::external_body]
pub(crate) fn item<'a>(value: &'a serde_json::Value, index: usize) -> (found: Option<
    &'a serde_json::Value,
>)
    ensures
        match found {
            Some(v) => nth(tree(*value), index as int) == Some(tree(*v)),
            None => nth(tree(*value), index as int) is None,
        },
{
    value.get(index)
}

/// `serde_json::Value::as_array` gives the items of an array, and nothing of other values.
#[verifier::external_body]
pub(crate) fn as_items<'a>(value: &'a serde_json::Value) -> (found: Option<
    &'a Vec<serde_json::Value>,
>)
    ensures
        match found {
            Some(items) => tree(*value) == Json::Arr(trees(items@)),
            None => !(tree(*value) is Arr),
        },
{
    value.as_array()
}

/// `serde_json::Value::as_str` gives the text of a string, and nothing of other values.
#[verifier::external_body]
pub(crate) fn as_text<'a>(value: &'a serde_json::Value) -> (found: Option<&'a str>)
    ensures
        match found {
            Some(text) => text_in(tree(*value)) == Some(text@),
            None => text_in(tree(*value)) is None,
        },
{
    value.as_str()
}

/// `serde_json::from_slice` reads a value from JSON text; the value is only named here.
#[verifier::external_body]
pub(crate) fn from_bytes(bytes: &[u8]) -> (value: Result<serde_json::Value, serde_json::Error>)
    ensures
        match value {
            Ok(v) => parsed(bytes@) == Some(tree(v)),
            Err(_) => parsed(bytes@) is None,
        },
{
    serde_json::from_slice(bytes)
}

/// Whether a value is an object that holds nothing but strings.
pub open spec fn is_flat(value: Json) -> bool {
    match value {
        Json::Obj(m) => forall|key: Seq<char>| m.dom().contains(key) ==> #[trigger] m[key] is Str,
        _ => false,
    }
}

/// `serde_json::to_string` writes every value: it fails only for keys that are no strings
/// and for types that refuse to be written, and a `serde_json::Value` has neither. The text
/// has no line breaks, and that of an object ends in its closing brace; otherwise it is only
/// named here. An object of strings is what `serde_json::from_slice` reads back from it.
#[verifier::external_body]
pub(crate) fn to_text(value: &serde_json::Value) -> (text: Result<String, serde_json::Error>)
    ensures
        text is Ok,
        text matches Ok(t) ==> t@ == written(tree(*value)),
        text matches Ok(t) ==> !t@.contains('\n'),
        text matches Ok(t) ==> (tree(*value) is Obj ==> t@.len() > 0 && t@.last() == '}'),
        text matches Ok(t) ==> (is_flat(tree(*value)) ==> parsed(encode_utf8(t@)) == Some(
            tree(*value),
        )),
{
    serde_json::to_string(value)
}

// ── Laws ──────────────────────────────────────────────────────────────────────

/// A value has a member exactly if it is an object with that key, an item exactly if it is an
/// array that reaches there, and a text exactly if it is a string.
pub proof fn law_what_values_have(value: Json, key: Seq<char>, index: int, found: Json)
    ensures
        field(value, key) == Some(found) <==> (value matches Json::Obj(m) && m.dom().contains(key)
            && m[key] == found),
        nth(value, index) == Some(found) <==> (value matches Json::Arr(items) && 0 <= index
            < items.len() && items[index] == found),
        text_in(value) is Some <==> value is Str,
        value matches Json::Str(text) ==> text_in(value) == Some(text),
{
}

/// There are as many trees as values, each at its value's place.
pub proof fn law_trees_keep_their_places(values: Seq<serde_json::Value>)
    ensures
        trees(values).len() == values.len(),
        forall|i: int| 0 <= i < values.len() ==> #[trigger] trees(values)[i] == tree(values[i]),
{
}

} // verus!
