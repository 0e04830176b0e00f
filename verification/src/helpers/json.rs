use serde_json::Value;
use vstd::prelude::*;

verus! {

/// Declares `serde_json::Value`, a parsed JSON value. Nothing inside it is
/// visible here: what it holds is named by `json_doc`.
#[verifier::external_type_specification]
#[verifier::external_body]
pub struct ExValue(serde_json::Value);

/// Declares `serde_json::Error`, the reason why a text is no JSON. It is
/// only carried to the place that turns it into an error of this crate.
#[verifier::external_type_specification]
#[verifier::external_body]
pub struct ExJsonError(serde_json::Error);

/// A JSON document as a mathematical value.
///
/// Numbers carry no payload: nothing in this crate reads one.
pub enum JsonDoc {
    Null,
    Bool(bool),
    Number,
    Text(Seq<char>),
    Array(Seq<JsonDoc>),
    Object(Map<Seq<char>, JsonDoc>),
}

impl JsonDoc {
    /// The member stored under `key`, if this is an object that has one.
    pub open spec fn field(self, key: Seq<char>) -> Option<JsonDoc> {
        match self {
            JsonDoc::Object(fields) => if fields.contains_key(key) {
                Some(fields[key])
            } else {
                None
            },
            _ => None,
        }
    }

    /// The truth value, if this is a boolean.
    pub open spec fn as_bool(self) -> Option<bool> {
        match self {
            JsonDoc::Bool(b) => Some(b),
            _ => None,
        }
    }

    /// The characters, if this is a string.
    pub open spec fn as_text(self) -> Option<Seq<char>> {
        match self {
            JsonDoc::Text(t) => Some(t),
            _ => None,
        }
    }

    /// The elements in order, if this is an array.
    pub open spec fn as_items(self) -> Option<Seq<JsonDoc>> {
        match self {
            JsonDoc::Array(items) => Some(items),
            _ => None,
        }
    }

    /// The boolean stored under `key`, if this is an object that has one.
    pub open spec fn bool_field(self, key: Seq<char>) -> Option<bool> {
        match self.field(key) {
            Some(member) => member.as_bool(),
            None => None,
        }
    }

    /// The string stored under `key`, if this is an object that has one.
    pub open spec fn text_field(self, key: Seq<char>) -> Option<Seq<char>> {
        match self.field(key) {
            Some(member) => member.as_text(),
            None => None,
        }
    }
}

/// The document that a `serde_json::Value` holds.
pub uninterp spec fn json_doc(value: Value) -> JsonDoc;

/// The document that `serde_json::from_str` reads from a text, or `None`
/// where it reports an error.
pub uninterp spec fn json_parse(text: Seq<char>) -> Option<JsonDoc>;

/// The documents that a run of values holds, in order.
pub open spec fn json_docs(values: Seq<Value>) -> Seq<JsonDoc> {
    values.map_values(|v: Value| json_doc(v))
}

/// Calls `serde_json::from_str` for a `Value`. Trusted: the outcome depends
/// on the text alone, so it is named `json_parse`; a returned value holds
/// the named document, and an error means that there is none.
#[verifier::external_body]
pub(crate) fn parse_value(text: &str) -> (parsed: Result<Value, serde_json::Error>)
    ensures
        match parsed {
            Ok(value) => json_parse(text@) == Some(json_doc(value)),
            Err(_) => json_parse(text@) is None,
        },
{
    serde_json::from_str::<Value>(text)
}

/// Calls `serde_json::Value::get` with a string index. Trusted: it returns
/// the member under `key` where the value is an object that has one, and
/// `None` for a missing key and for every value that is no object.
#[verifier::external_body]
pub(crate) fn value_field<'a>(value: &'a Value, key: &str) -> (member: Option<&'a Value>)
    ensures
        match member {
            Some(found) => json_doc(*value).field(key@) == Some(json_doc(*found)),
            None => json_doc(*value).field(key@) is None,
        },
{
    value.get(key)
}

/// Calls `serde_json::Value::as_bool`. Trusted: it returns the boolean of a
/// boolean value and `None` for every other value.
#[verifier::external_body]
pub(crate) fn value_as_bool(value: &Value) -> (flag: Option<bool>)
    ensures
        flag == json_doc(*value).as_bool(),
{
    value.as_bool()
}

/// Calls `serde_json::Value::as_str`. Trusted: it returns the characters of
/// a string value and `None` for every other value.
#[verifier::external_body]
pub(crate) fn value_as_str<'a>(value: &'a Value) -> (text: Option<&'a str>)
    ensures
        match text {
            Some(found) => json_doc(*value).as_text() == Some(found@),
            None => json_doc(*value).as_text() is None,
        },
{
    value.as_str()
}

/// Calls `serde_json::Value::as_array`. Trusted: it returns the elements of
/// an array value in order and `None` for every other value.
#[verifier::external_body]
pub(crate) fn value_as_array<'a>(value: &'a Value) -> (items: Option<&'a Vec<Value>>)
    ensures
        match items {
            Some(found) => json_doc(*value).as_items() == Some(json_docs(found@)),
            None => json_doc(*value).as_items() is None,
        },
{
    value.as_array()
}

/// Reads the boolean stored under `key`.
pub fn bool_member(value: &Value, key: &str) -> (flag: Option<bool>)
    ensures
        flag == json_doc(*value).bool_field(key@),
{
    match value_field(value, key) {
        Some(member) => value_as_bool(member),
        None => None,
    }
}

/// Reads the string stored under `key`.
pub fn text_member<'a>(value: &'a Value, key: &str) -> (text: Option<&'a str>)
    ensures
        match text {
            Some(found) => json_doc(*value).text_field(key@) == Some(found@),
            None => json_doc(*value).text_field(key@) is None,
        },
{
    match value_field(value, key) {
        Some(member) => value_as_str(member),
        None => None,
    }
}

} // verus!
