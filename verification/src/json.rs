//! JSON documents, held as text.
//!
//! The crate never looks inside a JSON document: it carries tool arguments,
//! tool results and schemas from one party to the next. A [`JsonValue`]
//! therefore holds the document's text. Reading and writing JSON is left to
//! `serde_json`, behind the two private functions at the end of this file.

use vstd::prelude::*;
use vstd::string::*;

verus! {

/// What `serde_json` makes of `text`: `None` where it does not parse as one
/// JSON value, else the compact text that `serde_json` writes for the value
/// it read.
pub uninterp spec fn json_normalized(text: Seq<char>) -> Option<Seq<char>>;

/// The JSON string literal that `serde_json` writes for `text`, quotes and
/// escapes included.
pub uninterp spec fn json_quoted(text: Seq<char>) -> Seq<char>;

/// A JSON document, by its text. The view is that text.
#[derive(Debug)]
pub struct JsonValue {
    pub text: String,
}

impl View for JsonValue {
    type V = Seq<char>;

    open spec fn view(&self) -> Seq<char> {
        self.text@
    }
}

impl DeepView for JsonValue {
    type V = Seq<char>;

    open spec fn deep_view(&self) -> Seq<char> {
        self@
    }
}

impl Clone for JsonValue {
    fn clone(&self) -> (copy: JsonValue)
        ensures
            copy@ == self@,
    {
        JsonValue { text: self.text.clone() }
    }
}

/// The text of the JSON value `null`.
pub open spec fn null_text() -> Seq<char> {
    "null"@
}

/// The text of the JSON object without members.
pub open spec fn empty_object_text() -> Seq<char> {
    "{}"@
}

impl JsonValue {
    /// The document with exactly this text. The text is taken as it is and
    /// not checked.
    pub fn from_text(text: String) -> (value: JsonValue)
        ensures
            value@ == text@,
    {
        JsonValue { text }
    }

    /// The JSON value `null`.
    pub fn null() -> (value: JsonValue)
        ensures
            value@ == null_text(),
    {
        JsonValue { text: String::from_str("null") }
    }

    /// The JSON object without members.
    pub fn empty_object() -> (value: JsonValue)
        ensures
            value@ == empty_object_text(),
    {
        JsonValue { text: String::from_str("{}") }
    }

    /// The JSON string that holds `text`.
    pub fn string(text: &str) -> (value: JsonValue)
        ensures
            value@ == json_quoted(text@),
    {
        JsonValue { text: quote(text) }
    }

    /// Reads `text` as JSON: `None` where it is not one JSON value, else
    /// the value in compact form.
    pub fn parse(text: &str) -> (parsed: Option<JsonValue>)
        ensures
            parsed.deep_view() == json_normalized(text@),
    {
        match normalize(text) {
            Some(compact) => Some(JsonValue { text: compact }),
            None => None,
        }
    }

    /// The parsed value, or the empty object where parsing gave none.
    pub fn or_empty_object(parsed: Option<JsonValue>) -> (value: JsonValue)
        ensures
            value@ == match parsed {
                Some(v) => v@,
                None => empty_object_text(),
            },
    {
        match parsed {
            Some(v) => v,
            None => JsonValue::empty_object(),
        }
    }

    /// The parsed value, or `null` where parsing gave none.
    pub fn or_null(parsed: Option<JsonValue>) -> (value: JsonValue)
        ensures
            value@ == match parsed {
                Some(v) => v@,
                None => null_text(),
            },
    {
        match parsed {
            Some(v) => v,
            None => JsonValue::null(),
        }
    }

    /// The document's text.
    pub fn as_str(&self) -> (text: &str)
        ensures
            text@ == self@,
    {
        self.text.as_str()
    }
}

/// `serde_json::from_str` into a `serde_json::Value`, which is then written
/// back with the value's `Display`. The result depends on the text alone:
/// `None` exactly where `serde_json` rejects the text, else the compact
/// rendering of what it read.
#[verifier::external_body]
fn normalize(text: &str) -> (compact: Option<String>)
    ensures
        compact.deep_view() == json_normalized(text@),
{
    match serde_json::from_str::<serde_json::Value>(text) {
        Ok(value) => Some(value.to_string()),
        Err(_) => None,
    }
}

/// The `Display` of `serde_json::Value::String`: the JSON string literal
/// for `text`. The result depends on the text alone.
#[verifier::external_body]
fn quote(text: &str) -> (literal: String)
    ensures
        literal@ == json_quoted(text@),
{
    serde_json::Value::String(text.to_owned()).to_string()
}

} // verus!
