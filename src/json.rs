//! JSON values carried through the library, and the one place where JSON text is read.
use vstd::prelude::*;
use serde_json::Value;

verus! {

/// A JSON value as serde_json holds it; the library carries it without looking inside.
#[verifier::external_type_specification]
#[verifier::external_body]
pub struct ExJsonValue(Value);

/// Relies on serde_json's derived `Clone` for `Value`: the copy is the same value.
pub assume_specification[ <Value as Clone>::clone ](v: &Value) -> (r: Value)
    ensures
        r == *v,
;

/// The string held by member `key` of the JSON object that `text` holds, if `text` is one JSON
/// document, an object, with such a member, and that member is a string.
pub uninterp spec fn string_member(text: Seq<char>, key: Seq<char>) -> Option<Seq<char>>;

/// Relies on `serde_json::from_str::<Value>`, `Value::get` and `Value::as_str`: the text is read
/// as one JSON document and its member `key` is handed back where it is a string.
#[verifier::external_body]
pub fn json_string_member(text: &str, key: &str) -> (r: Option<String>)
    ensures
        r.is_some() == string_member(text@, key@).is_some(),
        r matches Some(v) ==> v@ == string_member(text@, key@).unwrap(),
{
    let doc: Value = serde_json::from_str(text).ok()?;
    doc.get(key)?.as_str().map(|v| v.to_string())
}

/// Whether `text` is one JSON document, an object, whose member `key` is itself an object.
pub uninterp spec fn object_member(text: Seq<char>, key: Seq<char>) -> bool;

/// Relies on `serde_json::from_str::<Value>` and `Value::get`: the text is read as one JSON
/// document and its member `key` is handed back where it is an object.
#[verifier::external_body]
pub fn json_object_member(text: &str, key: &str) -> (r: Option<Value>)
    ensures
        r.is_some() == object_member(text@, key@),
{
    let doc: Value = serde_json::from_str(text).ok()?;
    match doc.get(key)? {
        Value::Object(members) => Some(Value::Object(members.clone())),
        _ => None,
    }
}

/// A JSON object as serde_json holds it.
#[verifier::external_type_specification]
#[verifier::external_body]
#[verifier::reject_recursive_types(K)]
#[verifier::reject_recursive_types(V)]
pub struct ExJsonMap<K, V>(serde_json::Map<K, V>);

/// Relies on `serde_json::Map::new`: an empty JSON object.
pub assume_specification[ serde_json::Map::<String, Value>::new ]() -> serde_json::Map<String, Value>;

/// Relies on `serde_json::Map::insert`: sets one member of a JSON object.
pub assume_specification[ serde_json::Map::<String, Value>::insert ](
    m: &mut serde_json::Map<String, Value>,
    k: String,
    v: Value,
) -> Option<Value>;

/// Relies on serde_json's `From<Map<String, Value>>` for `Value`: the object as a value.
pub assume_specification[ <Value as From<serde_json::Map<String, Value>>>::from ](
    m: serde_json::Map<String, Value>,
) -> Value;

/// Relies on serde_json's `From<Vec<T>>` for `Value`: the array of the converted items.
pub assume_specification<T: Into<Value>>[ <Value as From<Vec<T>>>::from ](v: Vec<T>) -> Value;

/// Relies on serde_json's `From<bool>` for `Value`: a JSON boolean.
pub assume_specification[ <Value as From<bool>>::from ](b: bool) -> Value;

/// Relies on serde_json's `From<String>` for `Value`: a JSON string.
pub assume_specification[ <Value as From<String>>::from ](s: String) -> Value;

/// Relies on serde_json's `From<u64>` for `Value`: a JSON number.
pub assume_specification[ <Value as From<u64>>::from ](n: u64) -> Value;

/// Relies on serde_json's `From<()>` for `Value`: JSON `null`.
pub assume_specification[ <Value as From<()>>::from ](u: ()) -> Value;

/// A JSON object schema with the given properties and required members.
pub(crate) fn object_schema(properties: serde_json::Map<String, Value>, required: Vec<Value>) -> Value {
    let mut m = serde_json::Map::new();
    m.insert(String::from_str("type"), Value::from(String::from_str("object")));
    m.insert(String::from_str("properties"), Value::from(properties));
    m.insert(String::from_str("required"), Value::from(required));
    Value::from(m)
}

/// A JSON schema of a string, with its description.
pub(crate) fn string_schema(description: &str) -> Value {
    let mut m = serde_json::Map::new();
    m.insert(String::from_str("type"), Value::from(String::from_str("string")));
    m.insert(String::from_str("description"), Value::from(String::from_str(description)));
    Value::from(m)
}

} // verus!
