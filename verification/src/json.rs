//! JSON documents as the template engine receives them.
//!
//! The values themselves are `serde_json`'s. What the library proves about
//! them is stated over [`Json`], a mathematical model of a document, and rests
//! on the contracts that this module gives to `serde_json`'s constructors.

use vstd::prelude::*;

verus! {

/// `serde_json::Value`: a JSON document. The verifier does not look inside;
/// what a value holds is [`value_model`].
#[verifier::external_type_specification]
#[verifier::external_body]
pub struct ExValue(serde_json::Value);

/// `serde_json::Map`: the entries of a JSON object. The verifier does not
/// look inside; what a map holds is [`object_model`].
#[verifier::external_type_specification]
#[verifier::external_body]
#[verifier::reject_recursive_types(K)]
#[verifier::reject_recursive_types(V)]
pub struct ExObject<K, V>(serde_json::Map<K, V>);

/// A JSON object: text keys, JSON values.
pub type JsonObject = serde_json::Map<String, serde_json::Value>;

/// The model of a JSON document. Of a number it keeps only that it is one:
/// the documents that this library builds hold none.
pub enum Json {
    Null,
    Bool(bool),
    Number,
    Text(Seq<char>),
    List(Seq<Json>),
    Object(Map<Seq<char>, Json>),
}

/// The document that a `serde_json::Value` holds.
pub uninterp spec fn value_model(v: serde_json::Value) -> Json;

/// The entries that a `serde_json::Map` holds, by key.
pub uninterp spec fn object_model(m: serde_json::Map<String, serde_json::Value>) -> Map<
    Seq<char>,
    Json,
>;

/// The models of a sequence of values, in order.
pub open spec fn values_model(items: Seq<serde_json::Value>) -> Seq<Json> {
    items.map_values(|v: serde_json::Value| value_model(v))
}

/// `serde_json::Value::Null`: the null document.
#[verifier::external_body]
pub(crate) fn null_value() -> (v: serde_json::Value)
    ensures
        value_model(v) == Json::Null,
{
    serde_json::Value::Null
}

/// `serde_json::Value::Bool`: the document that is the given boolean.
#[verifier::external_body]
pub(crate) fn bool_value(b: bool) -> (v: serde_json::Value)
    ensures
        value_model(v) == Json::Bool(b),
{
    serde_json::Value::Bool(b)
}

/// `serde_json::Value::String`: the document that is the given text.
#[verifier::external_body]
pub(crate) fn string_value(s: String) -> (v: serde_json::Value)
    ensures
        value_model(v) == Json::Text(s@),
{
    serde_json::Value::String(s)
}

/// `serde_json::Value::Array`: the list of the given documents, in order.
#[verifier::external_body]
pub(crate) fn array_value(items: Vec<serde_json::Value>) -> (v: serde_json::Value)
    ensures
        value_model(v) == Json::List(values_model(items@)),
{
    serde_json::Value::Array(items)
}

/// `serde_json::Value::Object`: the object with the entries of the given map.
#[verifier::external_body]
pub(crate) fn object_value(m: JsonObject) -> (v: serde_json::Value)
    ensures
        value_model(v) == Json::Object(object_model(m)),
{
    serde_json::Value::Object(m)
}

/// `serde_json::Map::new`: a map without entries.
#[verifier::external_body]
pub(crate) fn new_object() -> (m: JsonObject)
    ensures
        object_model(m) == (Map::<Seq<char>, Json>::empty()),
{
    serde_json::Map::new()
}

/// `serde_json::Map::insert`: the key holds the new value afterwards, whether
/// or not it held one before; every other entry is kept.
#[verifier::external_body]
pub(crate) fn object_insert(m: &mut JsonObject, key: String, value: serde_json::Value)
    ensures
        object_model(*final(m)) == object_model(*old(m)).insert(key@, value_model(value)),
{
    m.insert(key, value);
}

/// `Clone` for `serde_json::Map`: a map with the same entries.
#[verifier::external_body]
pub(crate) fn object_clone(m: &JsonObject) -> (copy: JsonObject)
    ensures
        object_model(copy) == object_model(*m),
{
    m.clone()
}

/// `Extend` for `serde_json::Map`: every entry of `other` is inserted, so a
/// key that both maps have ends with the value of `other`.
#[verifier::external_body]
pub(crate) fn object_extend(m: &mut JsonObject, other: JsonObject)
    ensures
        object_model(*final(m)) == object_model(*old(m)).union_prefer_right(object_model(other)),
{
    m.extend(other);
}

/// `serde_json::Value::as_object`: the map of an object, and nothing for
/// any other document.
#[verifier::external_body]
pub(crate) fn value_as_object(v: &serde_json::Value) -> (found: Option<&JsonObject>)
    ensures
        match value_model(*v) {
            Json::Object(entries) => found matches Some(m) && object_model(*m) == entries,
            _ => found.is_none(),
        },
{
    v.as_object()
}

/// `serde_json::Value::as_array`: the items of a list, and nothing for any
/// other document.
#[verifier::external_body]
pub(crate) fn value_as_array(v: &serde_json::Value) -> (found: Option<&Vec<serde_json::Value>>)
    ensures
        match value_model(*v) {
            Json::List(items) => found matches Some(a) && values_model(a@) == items,
            _ => found.is_none(),
        },
{
    v.as_array()
}

/// `serde_json::Value::as_str`: the text of a text document, and nothing for
/// any other document.
#[verifier::external_body]
pub(crate) fn value_as_str(v: &serde_json::Value) -> (found: Option<&str>)
    ensures
        match value_model(*v) {
            Json::Text(text) => found matches Some(s) && s@ == text,
            _ => found.is_none(),
        },
{
    v.as_str()
}

/// `serde_json::Value::is_null`: whether the document is null.
#[verifier::external_body]
pub(crate) fn value_is_null(v: &serde_json::Value) -> (null: bool)
    ensures
        null == (value_model(*v) is Null),
{
    v.is_null()
}

/// `serde_json::Map::get`: the value that the map holds for the key, and
/// nothing where it holds none.
#[verifier::external_body]
pub(crate) fn object_get<'a>(m: &'a JsonObject, key: &str) -> (found: Option<&'a serde_json::Value>)
    ensures
        match found {
            Some(v) => object_model(*m).contains_key(key@) && value_model(*v) == object_model(
                *m,
            )[key@],
            None => !object_model(*m).contains_key(key@),
        },
{
    m.get(key)
}

} // verus!
