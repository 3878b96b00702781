//! JSON values of serde_json, and the calls into it that the overlay makes.
use vstd::prelude::*;

verus! {

/// A JSON object: text keys to JSON values.
pub type JsonObject = serde_json::Map<String, serde_json::Value>;

#[verifier::external_type_specification]
#[verifier::external_body]
pub struct ExJsonValue(serde_json::Value);

#[verifier::external_type_specification]
#[verifier::external_body]
#[verifier::reject_recursive_types(K)]
#[verifier::reject_recursive_types(V)]
pub struct ExJsonMap<K, V>(serde_json::Map<K, V>);

#[verifier::external_type_specification]
#[verifier::external_body]
pub struct ExJsonError(serde_json::Error);

/// The entries of a JSON object.
pub uninterp spec fn object_entries(m: serde_json::Map<String, serde_json::Value>) -> Map<
    Seq<char>,
    serde_json::Value,
>;

/// Relies on `serde_json::Map::insert`: the key now maps to the value.
#[verifier::external_body]
pub fn object_insert(m: &mut JsonObject, key: String, value: serde_json::Value)
    ensures
        object_entries(*final(m)) == object_entries(*old(m)).insert(key@, value),
{
    m.insert(key, value);
}

/// Relies on `serde_json::Map::remove`: the entry of the key leaves the map and is returned.
#[verifier::external_body]
pub fn object_remove(m: &mut JsonObject, key: &str) -> (r: Option<serde_json::Value>)
    ensures
        object_entries(*final(m)) == object_entries(*old(m)).remove(key@),
        r is Some <==> object_entries(*old(m)).contains_key(key@),
        r matches Some(v) ==> v == object_entries(*old(m))[key@],
{
    m.remove(key)
}

/// Relies on `serde_json::Map::get`: the value under the key.
#[verifier::external_body]
pub fn object_get<'a>(m: &'a JsonObject, key: &str) -> (r: Option<&'a serde_json::Value>)
    ensures
        r is Some <==> object_entries(*m).contains_key(key@),
        r matches Some(v) ==> *v == object_entries(*m)[key@],
{
    m.get(key)
}

/// Relies on `Extend` for `serde_json::Map`, which inserts each entry in turn:
/// keys of `patch` overwrite, other keys stay.
#[verifier::external_body]
pub fn object_extend(m: &mut JsonObject, patch: JsonObject)
    ensures
        object_entries(*final(m)) == object_entries(*old(m)).union_prefer_right(
            object_entries(patch),
        ),
{
    m.extend(patch);
}

/// Relies on `Clone` for `serde_json::Map`: the copy holds the same entries.
pub assume_specification[ <serde_json::Map<String, serde_json::Value> as Clone>::clone ](
    m: &serde_json::Map<String, serde_json::Value>,
) -> (r: serde_json::Map<String, serde_json::Value>)
    ensures
        object_entries(r) == object_entries(*m),
;

/// Relies on `IntoIterator` for `serde_json::Map`: each entry once.
#[verifier::external_body]
pub fn object_into_entries(m: JsonObject) -> (r: Vec<(String, serde_json::Value)>)
    ensures
        forall|i: int, j: int| 0 <= i < j < r@.len() ==> (#[trigger] r@[i]).0@ != (#[trigger] r@[j]).0@,
        forall|i: int| 0 <= i < r@.len() ==> object_entries(m).contains_key((#[trigger] r@[i]).0@)
            && object_entries(m)[r@[i].0@] == r@[i].1,
        forall|k: Seq<char>| #[trigger] object_entries(m).contains_key(k) ==> exists|i: int| 0 <= i < r@.len() && (#[trigger] r@[i]).0@ == k,
{
    m.into_iter().collect()
}

/// The entries of a JSON value that is an object; `None` for any other value.
pub uninterp spec fn object_of_value(v: serde_json::Value) -> Option<
    Map<Seq<char>, serde_json::Value>,
>;

/// The text of a JSON value that is a string; `None` for any other value.
pub uninterp spec fn text_of_value(v: serde_json::Value) -> Option<Seq<char>>;

/// The values of a JSON array that a text holds; `None` where the text is not one.
pub uninterp spec fn value_list_of(text: Seq<char>) -> Option<Seq<serde_json::Value>>;

/// The entries of a JSON object that a text holds; `None` where the text is not one.
pub uninterp spec fn object_of_text(text: Seq<char>) -> Option<Map<Seq<char>, serde_json::Value>>;

/// The JSON text of an array of values.
pub uninterp spec fn list_text_of(values: Seq<serde_json::Value>) -> Seq<char>;

/// Relies on the `Object` variant of `serde_json::Value`: a value that is an
/// object, taken apart; any other value handed back unchanged.
#[verifier::external_body]
pub fn value_into_object(v: serde_json::Value) -> (r: Result<JsonObject, serde_json::Value>)
    ensures
        r is Ok <==> object_of_value(v) is Some,
        r matches Ok(m) ==> object_entries(m) == object_of_value(v)->0,
        r matches Err(w) ==> w == v,
{
    match v {
        serde_json::Value::Object(m) => Ok(m),
        other => Err(other),
    }
}

/// Relies on the `Object` variant of `serde_json::Value`: wraps an object.
#[verifier::external_body]
pub fn object_value(m: JsonObject) -> (r: serde_json::Value)
    ensures
        object_of_value(r) == Some(object_entries(m)),
{
    serde_json::Value::Object(m)
}

/// Relies on `serde_json::Value::as_str`: the text of a string value.
#[verifier::external_body]
pub fn value_text(v: &serde_json::Value) -> (r: Option<String>)
    ensures
        r is Some <==> text_of_value(*v) is Some,
        r matches Some(t) ==> t@ == text_of_value(*v)->0,
{
    v.as_str().map(|s| s.to_owned())
}

/// Relies on `serde_json::from_str`: reads a JSON array of values.
#[verifier::external_body]
pub fn parse_value_list(text: &str) -> (r: Result<Vec<serde_json::Value>, serde_json::Error>)
    ensures
        r is Ok <==> value_list_of(text@) is Some,
        r matches Ok(v) ==> v@ == value_list_of(text@)->0,
{
    serde_json::from_str(text)
}

/// Relies on `serde_json::from_str`: reads a JSON object.
#[verifier::external_body]
pub fn parse_object(text: &str) -> (r: Result<JsonObject, serde_json::Error>)
    ensures
        r is Ok <==> object_of_text(text@) is Some,
        r matches Ok(m) ==> object_entries(m) == object_of_text(text@)->0,
{
    serde_json::from_str(text)
}

/// Relies on `serde_json::to_string`: writes a JSON array of values.
#[verifier::external_body]
pub fn value_list_text(values: &Vec<serde_json::Value>) -> (r: Result<String, serde_json::Error>)
    ensures
        r matches Ok(t) ==> t@ == list_text_of(values@),
{
    serde_json::to_string(values)
}

/// Relies on `Display` for `serde_json::Error`: its message.
#[verifier::external_body]
pub fn error_text(e: &serde_json::Error) -> (r: String)
{
    e.to_string()
}

} // verus!
