//! JSON documents, read and written by `serde_json`.
use vstd::prelude::*;

verus! {

/// What a JSON document says. A number is given by its decimal text.
pub enum Json {
    Null,
    Bool(bool),
    Number(Seq<char>),
    Text(Seq<char>),
    Array(Seq<Json>),
    Object(Map<Seq<char>, Json>),
}

impl Json {
    /// The member `key` of an object; nothing has members but an object.
    pub open spec fn member(self, key: Seq<char>) -> Option<Json> {
        match self {
            Json::Object(members) => if members.contains_key(key) {
                Some(members[key])
            } else {
                None
            },
            _ => None,
        }
    }

    /// Whether this is an object of objects of booleans.
    pub open spec fn is_flag_table(self) -> bool {
        self matches Json::Object(groups) && forall|g: Seq<char>| #[trigger]
            groups.contains_key(g) ==> (groups[g] matches Json::Object(flags) && forall|f: Seq<char>|
             #[trigger] flags.contains_key(f) ==> flags[f] is Bool)
    }
}

/// A document as `serde_json` holds it.
#[verifier::external_type_specification]
#[verifier::external_body]
pub struct ExValue(serde_json::Value);

/// The error of `serde_json`.
#[verifier::external_type_specification]
#[verifier::external_body]
pub struct ExError(serde_json::Error);

/// What the tree of values below `doc` holds.
pub uninterp spec fn json_of(doc: serde_json::Value) -> Json;

/// What `serde_json::from_slice` reads from `text`, where it reads a document at all.
pub uninterp spec fn json_parsed(text: Seq<u8>) -> Option<Json>;

/// The bytes that `serde_json::to_vec` writes for `doc`.
pub uninterp spec fn json_text(doc: Json) -> Seq<u8>;

/// Calls `serde_json::from_slice`, which is a function of the bytes alone.
#[verifier::external_body]
pub(crate) fn parse_json(text: &[u8]) -> (res: Result<serde_json::Value, serde_json::Error>)
    ensures
        match res {
            Ok(doc) => json_parsed(text@) == Some(json_of(doc)),
            Err(_) => json_parsed(text@) is None,
        },
{
    serde_json::from_slice(text)
}

/// Calls `serde_json::to_vec`. A table of flags is always written, and reading the bytes back
/// gives the same table; of deeper documents, which the parser may refuse to read again, only the
/// name is stated.
#[verifier::external_body]
pub(crate) fn write_json(doc: &serde_json::Value) -> (res: Result<Vec<u8>, serde_json::Error>)
    ensures
        match res {
            Ok(text) => {
                &&& text@ == json_text(json_of(*doc))
                &&& json_of(*doc).is_flag_table() ==> json_parsed(text@) == Some(json_of(*doc))
            },
            Err(_) => !json_of(*doc).is_flag_table(),
        },
{
    serde_json::to_vec(doc)
}

/// Calls `serde_json::Value::get` with a string index: the member of that name, of an object that
/// has it.
#[verifier::external_body]
pub(crate) fn json_member<'a>(doc: &'a serde_json::Value, key: &str) -> (res: Option<
    &'a serde_json::Value,
>)
    ensures
        match res {
            Some(value) => json_of(*doc).member(key@) == Some(json_of(*value)),
            None => json_of(*doc).member(key@) is None,
        },
{
    doc.get(key)
}

/// Calls `serde_json::Value::as_bool`: the truth value, of a boolean.
#[verifier::external_body]
pub(crate) fn json_bool(doc: &serde_json::Value) -> (res: Option<bool>)
    ensures
        match res {
            Some(value) => json_of(*doc) == Json::Bool(value),
            None => json_of(*doc) !is Bool,
        },
{
    doc.as_bool()
}

/// Calls `serde_json::Value::as_str`: the characters, of a string.
#[verifier::external_body]
pub(crate) fn json_str(doc: &serde_json::Value) -> (res: Option<&str>)
    ensures
        match res {
            Some(value) => json_of(*doc) == Json::Text(value@),
            None => json_of(*doc) !is Text,
        },
{
    doc.as_str()
}

/// Makes a `serde_json::Value::Bool`.
#[verifier::external_body]
pub(crate) fn new_bool(value: bool) -> (res: serde_json::Value)
    ensures
        json_of(res) == Json::Bool(value),
{
    serde_json::Value::Bool(value)
}

/// Calls `serde_json::Map::insert` on an empty map: the object with the one member `key`.
#[verifier::external_body]
pub(crate) fn new_object(key: &str, value: serde_json::Value) -> (res: serde_json::Value)
    ensures
        json_of(res) == Json::Object(map![key@ => json_of(value)]),
{
    let mut members = serde_json::Map::new();
    members.insert(key.to_string(), value);
    serde_json::Value::Object(members)
}

} // verus!
