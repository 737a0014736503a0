//! The parts of `serde_json` that the library uses: the `Value` and `Map`
//! types, carried through as they are, the filling of an object with string
//! members, and the reading of a request body as JSON.
use vstd::prelude::*;

verus! {

/// `serde_json::Value`, a JSON document; the library carries it through.
#[verifier::external_type_specification]
#[verifier::external_body]
pub struct ExJsonValue(serde_json::Value);

/// `serde_json::Map`, a JSON object.
#[verifier::external_type_specification]
#[verifier::external_body]
#[verifier::reject_recursive_types(K)]
#[verifier::reject_recursive_types(V)]
pub struct ExJsonMap<K, V>(serde_json::Map<K, V>);

/// A JSON object.
pub type JsonObject = serde_json::Map<String, serde_json::Value>;

/// The members of a JSON object, by name: `Some(text)` for a member whose
/// value is the JSON string `text`, `None` for a member of another type.
pub uninterp spec fn json_members(m: JsonObject) -> Map<Seq<char>, Option<Seq<char>>>;

/// The members of a JSON object whose value is a JSON boolean, by name.
pub uninterp spec fn json_flags(m: JsonObject) -> Map<Seq<char>, bool>;

/// `serde_json::Map::new`: an object without members.
#[verifier::external_body]
pub(crate) fn json_map_new() -> (created: JsonObject)
    ensures
        json_members(created).is_empty(),
        json_flags(created).is_empty(),
{
    serde_json::Map::new()
}

/// `serde_json::Map::insert` of a string value: the member `key` now holds
/// the string `value`, replacing any earlier value of that member; the other
/// members are kept.
#[verifier::external_body]
pub(crate) fn json_map_insert_string(
    m: &mut JsonObject,
    key: String,
    value: String,
)
    ensures
        json_members(*final(m)) == json_members(*old(m)).insert(key@, Some(value@)),
        json_flags(*final(m)) == json_flags(*old(m)).remove(key@),
{
    m.insert(key, serde_json::Value::String(value));
}

/// `serde_json::Map::insert` of a boolean value: the member `key` now holds
/// the boolean `value`, replacing any earlier value of that member; the
/// other members are kept.
#[verifier::external_body]
pub(crate) fn json_map_insert_bool(m: &mut JsonObject, key: String, value: bool)
    ensures
        json_members(*final(m)) == json_members(*old(m)).insert(key@, None),
        json_flags(*final(m)) == json_flags(*old(m)).insert(key@, value),
{
    m.insert(key, serde_json::Value::Bool(value));
}

/// The JSON document that a text holds, if it is valid JSON.
pub uninterp spec fn json_document(text: Seq<char>) -> Option<serde_json::Value>;

/// The JSON string whose content is the given text.
pub uninterp spec fn json_string(text: Seq<char>) -> serde_json::Value;

/// `serde_json::from_str::<Value>`: the document the text holds, `None`
/// when the text is not valid JSON.
#[verifier::external_body]
pub(crate) fn json_parse(text: &str) -> (parsed: Option<serde_json::Value>)
    ensures
        parsed == json_document(text@),
{
    serde_json::from_str::<serde_json::Value>(text).ok()
}

/// `serde_json::Value::String`: the JSON string holding the text.
#[verifier::external_body]
pub(crate) fn json_string_of(text: String) -> (value: serde_json::Value)
    ensures
        value == json_string(text@),
{
    serde_json::Value::String(text)
}

/// The member `key` of a JSON document: its value when the document is an
/// object holding that member, `None` otherwise.
pub uninterp spec fn json_member(v: serde_json::Value, key: Seq<char>) -> Option<serde_json::Value>;

/// The content of a JSON document that is a string, `None` for any other
/// document.
pub uninterp spec fn json_text(v: serde_json::Value) -> Option<Seq<char>>;

/// `serde_json::Value::get` with a member name, the member copied out: the
/// member `key` when `v` is an object holding it, else `None`.
#[verifier::external_body]
pub(crate) fn json_get_member(v: &serde_json::Value, key: &str) -> (member: Option<serde_json::Value>)
    ensures
        member == json_member(*v, key@),
{
    v.get(key).cloned()
}

/// `serde_json::Value::as_str`, the text copied out: the content of a JSON
/// string, `None` for any other document.
#[verifier::external_body]
pub(crate) fn json_as_text(v: &serde_json::Value) -> (text: Option<String>)
    ensures
        match text {
            Some(t) => json_text(*v) == Some(t@),
            None => json_text(*v) is None,
        },
{
    v.as_str().map(|t| t.to_string())
}

/// The value of a JSON document that is a boolean, `None` for any other
/// document.
pub uninterp spec fn json_bool(v: serde_json::Value) -> Option<bool>;

/// The value of a JSON document that is a number fitting a `u64`, `None`
/// for any other document.
pub uninterp spec fn json_u64(v: serde_json::Value) -> Option<u64>;

/// The compact text of a JSON document, as its `Display` writes it.
pub uninterp spec fn json_compact(v: serde_json::Value) -> Seq<char>;

/// `serde_json::Value::as_bool`.
#[verifier::external_body]
pub(crate) fn json_as_bool(v: &serde_json::Value) -> (b: Option<bool>)
    ensures
        b == json_bool(*v),
{
    v.as_bool()
}

/// `serde_json::Value::as_u64`.
#[verifier::external_body]
pub(crate) fn json_as_u64(v: &serde_json::Value) -> (n: Option<u64>)
    ensures
        n == json_u64(*v),
{
    v.as_u64()
}

/// `serde_json::Value::to_string`, through its `Display`: the compact text
/// of the document.
#[verifier::external_body]
pub(crate) fn json_compact_text(v: &serde_json::Value) -> (text: String)
    ensures
        text@ == json_compact(*v),
{
    v.to_string()
}

/// The member `key` of an optional document.
pub open spec fn member_in(v: Option<serde_json::Value>, key: Seq<char>) -> Option<serde_json::Value> {
    match v {
        Some(d) => json_member(d, key),
        None => None,
    }
}

/// The member `key` of an optional document.
pub(crate) fn get_member_in(v: &Option<serde_json::Value>, key: &str) -> (member: Option<serde_json::Value>)
    ensures
        member == member_in(*v, key@),
{
    match v {
        Some(d) => json_get_member(d, key),
        None => None,
    }
}

/// The boolean of an optional document.
pub open spec fn bool_in(v: Option<serde_json::Value>) -> Option<bool> {
    match v {
        Some(d) => json_bool(d),
        None => None,
    }
}

/// The boolean of an optional document.
pub(crate) fn get_bool_in(v: &Option<serde_json::Value>) -> (b: Option<bool>)
    ensures
        b == bool_in(*v),
{
    match v {
        Some(d) => json_as_bool(d),
        None => None,
    }
}

/// The `u64` of an optional document.
pub open spec fn u64_in(v: Option<serde_json::Value>) -> Option<u64> {
    match v {
        Some(d) => json_u64(d),
        None => None,
    }
}

/// The `u64` of an optional document.
pub(crate) fn get_u64_in(v: &Option<serde_json::Value>) -> (n: Option<u64>)
    ensures
        n == u64_in(*v),
{
    match v {
        Some(d) => json_as_u64(d),
        None => None,
    }
}

/// The text of member `key` of a document, when that member is a JSON
/// string.
pub open spec fn member_text(v: serde_json::Value, key: Seq<char>) -> Option<Seq<char>> {
    match json_member(v, key) {
        Some(m) => json_text(m),
        None => None,
    }
}

/// The text of member `key` of a document, when that member is a JSON
/// string.
pub(crate) fn get_member_text(v: &serde_json::Value, key: &str) -> (text: Option<String>)
    ensures
        match text {
            Some(t) => member_text(*v, key@) == Some(t@),
            None => member_text(*v, key@) is None,
        },
{
    match json_get_member(v, key) {
        Some(m) => json_as_text(&m),
        None => None,
    }
}

/// The indented text that `serde_json::to_string_pretty` makes of a
/// document, `None` when it fails.
pub uninterp spec fn json_pretty(v: serde_json::Value) -> Option<Seq<char>>;

/// `serde_json::to_string_pretty` on a document: its indented text, `None`
/// when serialising fails.
#[verifier::external_body]
pub(crate) fn pretty_text(v: &serde_json::Value) -> (text: Option<String>)
    ensures
        match text {
            Some(t) => json_pretty(*v) == Some(t@),
            None => json_pretty(*v) is None,
        },
{
    serde_json::to_string_pretty(v).ok()
}

/// The text printed for a document: its indented form, or `{}` when it
/// cannot be serialised.
pub open spec fn printed_json(v: serde_json::Value) -> Seq<char> {
    match json_pretty(v) {
        Some(t) => t,
        None => "{}"@,
    }
}

/// The text printed for a document: its indented form, or `{}` when it
/// cannot be serialised.
pub fn json_output(v: &serde_json::Value) -> (text: String)
    ensures
        text@ == printed_json(*v),
{
    match pretty_text(v) {
        Some(t) => t,
        None => "{}".to_owned(),
    }
}

/// The body data for a text, given what parsing it as JSON gave: the
/// parsed document, or else the text as a JSON string.
pub fn data_from_parse(parsed: Option<serde_json::Value>, text: String) -> (body: serde_json::Value)
    ensures
        body == match parsed {
            Some(v) => v,
            None => json_string(text@),
        },
{
    match parsed {
        Some(v) => v,
        None => json_string_of(text),
    }
}

/// The body data of an API request: the given text read as JSON when it is
/// valid JSON, else the text itself as a JSON string; nothing without text.
pub fn request_data(data: Option<String>) -> (body: Option<serde_json::Value>)
    ensures
        match data {
            Some(text) => body == Some(
                match json_document(text@) {
                    Some(v) => v,
                    None => json_string(text@),
                },
            ),
            None => body is None,
        },
{
    match data {
        Some(text) => {
            let parsed = json_parse(text.as_str());
            Some(data_from_parse(parsed, text))
        },
        None => None,
    }
}

} // verus!
