//! JSON documents, and the calls into `serde_json` that build, print, parse
//! and read them.
//!
//! A `serde_json::Value` is opaque to the verifier. What it holds is spoken of
//! through [`value_doc`], a mathematical tree of the same shape. Every function
//! below that is marked `external_body` builds one value of `serde_json` or
//! makes one call into it; its contract is taken on trust from that crate's
//! documentation and source. Everything else in this crate is proved from
//! these contracts.

use vstd::prelude::*;

verus! {

/// The mathematical model of a JSON document.
pub enum JsonDoc {
    Null,
    Bool(bool),
    /// A whole number that fits `u64` or `i64`.
    Integer(int),
    /// Any other number, by the digits that stand for it.
    Decimal(Seq<char>),
    Text(Seq<char>),
    Array(Seq<JsonDoc>),
    /// An object. Its keys are unique and carry no order.
    Object(Map<Seq<char>, JsonDoc>),
}

impl JsonDoc {
    /// The object without members, `{}`.
    pub open spec fn empty_object() -> JsonDoc {
        JsonDoc::Object(Map::empty())
    }

    /// This object with the member `key` set to `member`; any other document unchanged.
    pub open spec fn with(self, key: Seq<char>, member: JsonDoc) -> JsonDoc {
        match self {
            JsonDoc::Object(members) => JsonDoc::Object(members.insert(key, member)),
            _ => self,
        }
    }

    /// This object with the member `key` set to the text `member`, where there is one.
    pub open spec fn with_optional(self, key: Seq<char>, member: Option<Seq<char>>) -> JsonDoc {
        match member {
            Some(text) => self.with(key, JsonDoc::Text(text)),
            None => self,
        }
    }

    /// The member `key` of an object; `None` where the object has no such member
    /// or the document is no object.
    pub open spec fn member(self, key: Seq<char>) -> Option<JsonDoc> {
        match self {
            JsonDoc::Object(members) => if members.contains_key(key) {
                Some(members[key])
            } else {
                None
            },
            _ => None,
        }
    }

    /// The document that stands for an optional text: the text, or `null`.
    pub open spec fn nullable(text: Option<Seq<char>>) -> JsonDoc {
        match text {
            Some(text) => JsonDoc::Text(text),
            None => JsonDoc::Null,
        }
    }

    /// What the member `key` says as an optional text: `absent` where the
    /// object has no such member, nothing for `null`, the text of a string.
    /// Any other member is a mismatch.
    pub open spec fn optional_text(self, key: Seq<char>, absent: Option<Seq<char>>) -> Result<
        Option<Seq<char>>,
        Mismatch,
    > {
        match self.member(key) {
            None => Ok(absent),
            Some(JsonDoc::Null) => Ok(None),
            Some(JsonDoc::Text(text)) => Ok(Some(text)),
            Some(_) => Err(Mismatch),
        }
    }

    /// What the member `key` says as a text: `absent` where the object has no
    /// such member, the text of a string. Any other member is a mismatch.
    pub open spec fn text(self, key: Seq<char>, absent: Seq<char>) -> Result<Seq<char>, Mismatch> {
        match self.member(key) {
            None => Ok(absent),
            Some(JsonDoc::Text(text)) => Ok(text),
            Some(_) => Err(Mismatch),
        }
    }

    /// What the member `key` says as a flag: `absent` where the object has no
    /// such member, the value of `true` or `false`. Any other member is a
    /// mismatch.
    pub open spec fn flag(self, key: Seq<char>, absent: bool) -> Result<bool, Mismatch> {
        match self.member(key) {
            None => Ok(absent),
            Some(JsonDoc::Bool(flag)) => Ok(flag),
            Some(_) => Err(Mismatch),
        }
    }
}

/// A member of a JSON object holds a value of another kind than the reader
/// asked for.
#[derive(Clone, Copy, Debug, PartialEq, Eq, Structural)]
pub struct Mismatch;

/// The characters of an optional string.
pub open spec fn text_of(text: Option<String>) -> Option<Seq<char>> {
    match text {
        Some(text) => Some(text@),
        None => None,
    }
}

/// `serde_json::Value`, a JSON document in memory. Nothing of its inside is
/// seen here: what it holds is [`value_doc`].
#[verifier::external_type_specification]
#[verifier::external_body]
pub struct ExValue(serde_json::Value);

/// `serde_json::Error`, what a failed parse reports. It is only told apart
/// from success.
#[verifier::external_type_specification]
#[verifier::external_body]
pub struct ExJsonError(serde_json::Error);

/// The document that a `serde_json::Value` holds.
pub uninterp spec fn value_doc(value: serde_json::Value) -> JsonDoc;

/// The compact text that `serde_json` prints for a document. With the map
/// that `serde_json` uses by default the members of an object come out sorted
/// by key, so the text depends on the document alone.
pub uninterp spec fn json_text(doc: JsonDoc) -> Seq<char>;

/// The indented text that `serde_json` prints for a document.
pub uninterp spec fn json_pretty_text(doc: JsonDoc) -> Seq<char>;

/// The document that `serde_json` reads from a text; `None` where it reports
/// an error.
pub uninterp spec fn json_parse(text: Seq<char>) -> Option<JsonDoc>;

/// Makes `serde_json::Value::Null`, the document `null`.
#[verifier::external_body]
pub(crate) fn null_value() -> (value: serde_json::Value)
    ensures
        value_doc(value) == JsonDoc::Null,
{
    serde_json::Value::Null
}

/// Makes `serde_json::Value::Bool`, the document `true` or `false`.
#[verifier::external_body]
pub(crate) fn bool_value(flag: bool) -> (value: serde_json::Value)
    ensures
        value_doc(value) == JsonDoc::Bool(flag),
{
    serde_json::Value::Bool(flag)
}

/// Calls `serde_json::Value::from` on a `u64`, which gives the number itself.
#[verifier::external_body]
pub(crate) fn number_value(number: u64) -> (value: serde_json::Value)
    ensures
        value_doc(value) == JsonDoc::Integer(number as int),
{
    serde_json::Value::from(number)
}

/// Calls `serde_json::Value::from` on a `&str`, which gives a JSON string with
/// the same characters.
#[verifier::external_body]
pub(crate) fn text_value(text: &str) -> (value: serde_json::Value)
    ensures
        value_doc(value) == JsonDoc::Text(text@),
{
    serde_json::Value::from(text)
}

/// Makes a `serde_json::Value::Object` around `serde_json::Map::new`, the
/// object without members.
#[verifier::external_body]
pub(crate) fn empty_object() -> (value: serde_json::Value)
    ensures
        value_doc(value) == JsonDoc::empty_object(),
{
    serde_json::Value::Object(serde_json::Map::new())
}

/// Calls `serde_json::Map::insert` on the map of an object: the member `key`
/// is added, or replaced where the object had one of that name. A value that
/// is no object is left as it is.
#[verifier::external_body]
pub(crate) fn object_insert(object: &mut serde_json::Value, key: &str, member: serde_json::Value)
    ensures
        value_doc(*final(object)) == value_doc(*old(object)).with(key@, value_doc(member)),
{
    if let serde_json::Value::Object(members) = object {
        members.insert(key.to_owned(), member);
    }
}

/// Calls `to_string` of `serde_json::Value`, whose `Display` prints compact JSON.
#[verifier::external_body]
pub(crate) fn print_value(value: &serde_json::Value) -> (text: String)
    ensures
        text@ == json_text(value_doc(*value)),
{
    value.to_string()
}

/// Formats a `serde_json::Value` with `{:#}`, for which its `Display` prints
/// indented JSON.
#[verifier::external_body]
pub(crate) fn print_value_pretty(value: &serde_json::Value) -> (text: String)
    ensures
        text@ == json_pretty_text(value_doc(*value)),
{
    format!("{:#}", value)
}

/// Calls `serde_json::from_str` for a `serde_json::Value`: the whole text has
/// to be one JSON document.
#[verifier::external_body]
pub(crate) fn parse_value(text: &str) -> (parsed: Result<serde_json::Value, serde_json::Error>)
    ensures
        parsed is Ok <==> json_parse(text@) is Some,
        parsed matches Ok(value) ==> json_parse(text@) == Some(value_doc(value)),
{
    serde_json::from_str::<serde_json::Value>(text)
}

/// Calls `serde_json::Value::get` with a string: the member of that name where
/// the value is an object that has one, else `None`.
#[verifier::external_body]
pub(crate) fn member<'a>(value: &'a serde_json::Value, key: &str) -> (found: Option<
    &'a serde_json::Value,
>)
    ensures
        found is Some <==> value_doc(*value).member(key@) is Some,
        found matches Some(inner) ==> value_doc(*value).member(key@) == Some(value_doc(*inner)),
{
    value.get(key)
}

/// Calls `serde_json::Value::as_str`: the characters of a JSON string, `None`
/// for every other value.
#[verifier::external_body]
pub(crate) fn as_text<'a>(value: &'a serde_json::Value) -> (text: Option<&'a str>)
    ensures
        text is Some <==> value_doc(*value) is Text,
        text matches Some(inner) ==> value_doc(*value) == JsonDoc::Text(inner@),
{
    value.as_str()
}

/// Calls `serde_json::Value::as_bool`: the flag of `true` or `false`, `None`
/// for every other value.
#[verifier::external_body]
pub(crate) fn as_flag(value: &serde_json::Value) -> (flag: Option<bool>)
    ensures
        flag is Some <==> value_doc(*value) is Bool,
        flag matches Some(inner) ==> value_doc(*value) == JsonDoc::Bool(inner),
{
    value.as_bool()
}

/// Calls `serde_json::Value::is_null`.
#[verifier::external_body]
pub(crate) fn is_null(value: &serde_json::Value) -> (null: bool)
    ensures
        null == (value_doc(*value) is Null),
{
    value.is_null()
}

/// Calls `serde_json::Value::is_object`.
#[verifier::external_body]
pub(crate) fn is_object(value: &serde_json::Value) -> (object: bool)
    ensures
        object == (value_doc(*value) is Object),
{
    value.is_object()
}

/// Puts the text `member` under `key`, where there is one; else leaves the
/// object as it is.
pub(crate) fn insert_optional(object: &mut serde_json::Value, key: &str, member: &Option<String>)
    ensures
        value_doc(*final(object)) == value_doc(*old(object)).with_optional(key@, text_of(*member)),
{
    match member {
        Some(text) => object_insert(object, key, text_value(text.as_str())),
        None => {},
    }
}

/// The value that stands for an optional text: the text, or `null`.
pub(crate) fn nullable_value(text: &Option<String>) -> (value: serde_json::Value)
    ensures
        value_doc(value) == JsonDoc::nullable(text_of(*text)),
{
    match text {
        Some(text) => text_value(text.as_str()),
        None => null_value(),
    }
}

/// Reads the member `key` as an optional text.
pub(crate) fn read_optional_text(
    value: &serde_json::Value,
    key: &str,
    absent: Option<String>,
) -> (read: Result<Option<String>, Mismatch>)
    ensures
        match value_doc(*value).optional_text(key@, text_of(absent)) {
            Ok(text) => read matches Ok(found) && text_of(found) == text,
            Err(_) => read is Err,
        },
{
    match member(value, key) {
        None => Ok(absent),
        Some(inner) => {
            if is_null(inner) {
                Ok(None)
            } else {
                match as_text(inner) {
                    Some(text) => Ok(Some(text.to_owned())),
                    None => Err(Mismatch),
                }
            }
        },
    }
}

/// Reads the member `key` as a text.
pub(crate) fn read_text(value: &serde_json::Value, key: &str, absent: String) -> (read: Result<
    String,
    Mismatch,
>)
    ensures
        match value_doc(*value).text(key@, absent@) {
            Ok(text) => read matches Ok(found) && found@ == text,
            Err(_) => read is Err,
        },
{
    match member(value, key) {
        None => Ok(absent),
        Some(inner) => match as_text(inner) {
            Some(text) => Ok(text.to_owned()),
            None => Err(Mismatch),
        },
    }
}

/// Reads the member `key` as a flag.
pub(crate) fn read_flag(value: &serde_json::Value, key: &str, absent: bool) -> (read: Result<
    bool,
    Mismatch,
>)
    ensures
        read == value_doc(*value).flag(key@, absent),
{
    match member(value, key) {
        None => Ok(absent),
        Some(inner) => match as_flag(inner) {
            Some(flag) => Ok(flag),
            None => Err(Mismatch),
        },
    }
}

} // verus!
