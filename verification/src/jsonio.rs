//! The boundary to serde_json: the document type is declared opaque,
//! and a handful of trusted accessors carry plain values across. All
//! logic on what the accessors yield is verified in the callers.

use vstd::prelude::*;

verus! {

/// serde_json's parsed document type. Values of it pass through
/// signatures; the library reads them only through the accessors
/// below.
#[verifier::external_type_specification]
#[verifier::external_body]
pub struct ExValue(serde_json::Value);

/// Relies on `serde_json::from_str::<Value>`: parses a document, or
/// yields nothing when the text is not valid JSON.
#[verifier::external_body]
pub(crate) fn json_parse(s: &str) -> (r: Option<serde_json::Value>) {
    serde_json::from_str(s).ok()
}

/// Relies on `serde_json::Value::is_object`.
#[verifier::external_body]
pub(crate) fn json_is_object(v: &serde_json::Value) -> (r: bool) {
    v.is_object()
}

/// Relies on `serde_json::Value::is_null`.
#[verifier::external_body]
pub(crate) fn json_is_null(v: &serde_json::Value) -> (r: bool) {
    v.is_null()
}

/// Relies on `serde_json::Value::get`: the member of an object under a
/// key, or nothing.
#[verifier::external_body]
pub(crate) fn json_get<'a>(v: &'a serde_json::Value, key: &str) -> (r: Option<
    &'a serde_json::Value,
>) {
    v.get(key)
}

/// Relies on `serde_json::Value::as_str`: the text of a string value.
#[verifier::external_body]
pub(crate) fn json_as_str(v: &serde_json::Value) -> (r: Option<String>) {
    v.as_str().map(str::to_owned)
}

/// Relies on `serde_json::Value::as_i64`: the value of an integer that
/// fits in a signed machine word.
#[verifier::external_body]
pub(crate) fn json_as_i64(v: &serde_json::Value) -> (r: Option<i64>) {
    v.as_i64()
}

/// Relies on `serde_json::Value::as_u64`: the value of an integer that
/// is not negative.
#[verifier::external_body]
pub(crate) fn json_as_u64(v: &serde_json::Value) -> (r: Option<u64>) {
    v.as_u64()
}

/// Relies on `serde_json::Value::as_bool`.
#[verifier::external_body]
pub(crate) fn json_as_bool(v: &serde_json::Value) -> (r: Option<bool>) {
    v.as_bool()
}

/// The document text that `json_object_with_string_list` produces for
/// a key and a list of texts.
pub uninterp spec fn json_obj_of(key: Seq<char>, items: Seq<Seq<char>>) -> Seq<char>;

/// Relies on `serde_json::to_string_pretty` over an object with one
/// array member: the document depends on the key and the items alone,
/// and `serde_json::from_str` reads the same list back from it — so a
/// document written under the allow-list's key decodes to exactly the
/// given names.
#[verifier::external_body]
pub(crate) fn json_object_with_string_list(key: &str, items: &Vec<String>) -> (r: String)
    ensures
        r@ == json_obj_of(key@, items.deep_view()),
        key@ == "tools"@ ==> crate::allow_list::tools_of(r@) == Option::Some(items.deep_view()),
{
    let mut map = serde_json::Map::new();
    let list: Vec<serde_json::Value> = items.iter().map(
        |s| serde_json::Value::String(s.clone()),
    ).collect();
    map.insert(key.to_owned(), serde_json::Value::Array(list));
    serde_json::to_string_pretty(&serde_json::Value::Object(map)).unwrap_or_default()
}

} // verus!
