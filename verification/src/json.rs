use vstd::prelude::*;

verus! {

/// A JSON value of `serde_json`, carried through as an opaque value.
#[verifier::external_type_specification]
#[verifier::external_body]
pub struct ExJsonValue(serde_json::Value);

/// The object representation of `serde_json`, carried through as an opaque
/// value.
#[verifier::external_type_specification]
#[verifier::external_body]
#[verifier::reject_recursive_types(K)]
#[verifier::reject_recursive_types(V)]
pub struct ExJsonObject<K, V>(serde_json::Map<K, V>);

/// A JSON object as `serde_json` holds it: member names with their values.
pub type JsonObject = serde_json::Map<String, serde_json::Value>;

/// The compact JSON text that `serde_json` writes for a value.
pub uninterp spec fn json_text(value: serde_json::Value) -> Seq<char>;

/// The members of a `serde_json` object: each member name with the compact
/// JSON text of its value.
pub uninterp spec fn json_members(object: JsonObject) -> Map<Seq<char>, Seq<char>>;

/// The compact JSON text of a string value: the quoted and escaped string.
pub uninterp spec fn json_string_text(s: Seq<char>) -> Seq<char>;

/// The compact JSON text of an object with the given members.
pub uninterp spec fn json_object_text(members: Map<Seq<char>, Seq<char>>) -> Seq<char>;

/// The compact JSON text of an array whose elements have the given texts,
/// in their order.
pub uninterp spec fn json_array_text(elements: Seq<Seq<char>>) -> Seq<char>;

/// The members of an object that has none.
pub open spec fn no_members() -> Map<Seq<char>, Seq<char>> {
    Map::empty()
}

/// `serde_json::Value::String`: the string value holding `s`. Its text is
/// the one `serde_json` writes for that string.
#[verifier::external_body]
pub(crate) fn json_string(s: &str) -> (value: serde_json::Value)
    ensures
        json_text(value) == json_string_text(s@),
{
    serde_json::Value::String(s.to_owned())
}

/// `serde_json::Map::new`: an object without members.
#[verifier::external_body]
pub(crate) fn json_object_new() -> (object: JsonObject)
    ensures
        json_members(object) == no_members(),
{
    serde_json::Map::new()
}

/// `serde_json::Map::insert`: sets the member `key` to `value`, replacing a
/// member of that name, and hands back the value that was replaced.
#[verifier::external_body]
pub(crate) fn json_object_insert(
    object: &mut JsonObject,
    key: &str,
    value: serde_json::Value,
) -> (replaced: Option<serde_json::Value>)
    ensures
        json_members(*final(object)) == json_members(*old(object)).insert(key@, json_text(value)),
        replaced is Some <==> json_members(*old(object)).contains_key(key@),
        replaced matches Some(v) ==> json_text(v) == json_members(*old(object))[key@],
{
    object.insert(key.to_owned(), value)
}

/// `serde_json::Value::Object`: the object value with the members of
/// `object`. Its text depends on the members alone.
#[verifier::external_body]
pub(crate) fn json_object(object: JsonObject) -> (value: serde_json::Value)
    ensures
        json_text(value) == json_object_text(json_members(object)),
{
    serde_json::Value::Object(object)
}

/// `serde_json::Value::Array`: the array value with the elements of
/// `items`, in their order. Its text depends on the texts of the elements
/// alone.
#[verifier::external_body]
pub(crate) fn json_array(items: Vec<serde_json::Value>) -> (value: serde_json::Value)
    ensures
        json_text(value) == json_array_text(items@.map_values(|item: serde_json::Value| json_text(item))),
{
    serde_json::Value::Array(items)
}

/// `ToString::to_string` of `serde_json::Value`: the compact JSON text.
#[verifier::external_body]
pub(crate) fn json_render(value: &serde_json::Value) -> (text: String)
    ensures
        text@ == json_text(*value),
{
    value.to_string()
}

} // verus!
