//! JSON values as plain text: a [`Json`] holds the compact rendering of one value.

use vstd::prelude::*;

use crate::text::optional_text;

verus! {

broadcast use vstd::string::group_string_axioms;

/// The compact rendering of the JSON value that `text` denotes, and `None` where
/// `text` is no JSON.
pub uninterp spec fn json_compact(text: Seq<char>) -> Option<Seq<char>>;

/// The string under `key` in the JSON object that `text` denotes. `None` where
/// `text` is no JSON object, or has no such key, or another kind of value there.
pub uninterp spec fn json_string_field(text: Seq<char>, key: Seq<char>) -> Option<Seq<char>>;

/// The compact rendering of the JSON object that has the one key `key`, with the
/// string `value` under it.
pub uninterp spec fn json_single_field(key: Seq<char>, value: Seq<char>) -> Seq<char>;

/// `serde_json::from_str` into a `serde_json::Value`, and that value's `to_string`.
///
/// Claimed: the outcome depends on `text` alone, so it has a name, `json_compact`.
#[verifier::external_body]
fn parse_compact(text: &str) -> (compact: Option<String>)
    ensures
        optional_text(compact) == json_compact(text@),
{
    match serde_json::from_str::<serde_json::Value>(text) {
        Ok(value) => Some(value.to_string()),
        Err(_) => None,
    }
}

/// `serde_json::Value::get` with a string key and `as_str`, on the value that
/// `serde_json::from_str` reads from `text`.
///
/// Claimed: the outcome depends on `text` and `key` alone, so it has a name,
/// `json_string_field`.
#[verifier::external_body]
fn read_string_field(text: &str, key: &str) -> (field: Option<String>)
    ensures
        optional_text(field) == json_string_field(text@, key@),
{
    match serde_json::from_str::<serde_json::Value>(text) {
        Ok(value) => match value.get(key) {
            Some(field) => field.as_str().map(|text| text.to_string()),
            None => None,
        },
        Err(_) => None,
    }
}

/// `serde_json::Value`'s `to_string` on an object with one string field, built with
/// `serde_json::Map::insert`.
///
/// Claimed: the text depends on `key` and `value` alone, so it has a name,
/// `json_single_field`; and reading the field back gives `value`.
#[verifier::external_body]
fn write_single_field(key: &str, value: &str) -> (text: String)
    ensures
        text@ == json_single_field(key@, value@),
        json_string_field(text@, key@) == Some(value@),
{
    let mut map = serde_json::Map::new();
    map.insert(key.to_string(), serde_json::Value::String(value.to_string()));
    serde_json::Value::Object(map).to_string()
}

/// A JSON value, held as its compact text.
#[derive(Debug, PartialEq, Eq)]
pub struct Json {
    text: String,
}

impl View for Json {
    type V = Seq<char>;

    /// The compact text of the value.
    closed spec fn view(&self) -> Seq<char> {
        self.text@
    }
}

impl Clone for Json {
    fn clone(&self) -> (copy: Self)
        ensures
            copy@ == self@,
    {
        Json { text: self.text.clone() }
    }
}

impl Json {
    /// The text of the JSON value `null`.
    pub open spec fn null_text() -> Seq<char> {
        "null"@
    }

    /// The value `null`.
    pub fn null() -> (json: Json)
        ensures
            json@ == Self::null_text(),
    {
        Json { text: "null".to_owned() }
    }

    /// The value that `text` denotes, or `None` where `text` is no JSON.
    pub fn parse(text: &str) -> (json: Option<Json>)
        ensures
            json is Some <==> json_compact(text@) is Some,
            json is Some ==> json->0@ == json_compact(text@)->0,
    {
        match parse_compact(text) {
            Some(compact) => Some(Json { text: compact }),
            None => None,
        }
    }

    /// The object that has the one key `key`, with the string `value` under it.
    pub fn single_field(key: &str, value: &str) -> (json: Json)
        ensures
            json@ == json_single_field(key@, value@),
            json_string_field(json@, key@) == Some(value@),
    {
        Json { text: write_single_field(key, value) }
    }

    /// The value whose compact text is `text`.
    pub(crate) fn of_compact(text: &str) -> (json: Json)
        ensures
            json@ == text@,
    {
        Json { text: text.to_owned() }
    }

    /// The string under `key`, where this is an object that has one there.
    pub fn string_field(&self, key: &str) -> (field: Option<String>)
        ensures
            optional_text(field) == json_string_field(self@, key@),
    {
        read_string_field(self.text.as_str(), key)
    }

    /// The compact text of the value.
    pub fn text(&self) -> (text: &str)
        ensures
            text@ == self@,
    {
        self.text.as_str()
    }
}

} // verus!
