//! The boundary to `serde_json`.
//!
//! A parsed document stays a `serde_json::Value`. The verifier cannot look
//! inside one, so this module gives its contents a mathematical model,
//! [`JsonTree`], and states what the few `serde_json` functions used by the
//! library return in terms of that model. Those statements are trusted, not
//! proved; everything built on top of them is proved.

use vstd::prelude::*;

verus! {

/// `serde_json::Value`, carried through verified code as an opaque value.
#[verifier::external_type_specification]
#[verifier::external_body]
pub struct ExValue(serde_json::Value);

/// `serde_json::Error`, carried through verified code as an opaque value.
#[verifier::external_type_specification]
#[verifier::external_body]
pub struct ExError(serde_json::Error);

/// The mathematical content of a JSON document.
pub enum JsonTree {
    Null,
    Bool(bool),
    /// A number that `serde_json` holds as an integer.
    Integer(int),
    /// A number that `serde_json` holds as a floating-point value.
    Fraction,
    Text(Seq<char>),
    Array(Seq<JsonTree>),
    Object(Map<Seq<char>, JsonTree>),
}

impl JsonTree {
    /// The member stored under `key`, when this is an object that has one.
    pub open spec fn member(self, key: Seq<char>) -> Option<JsonTree> {
        match self {
            JsonTree::Object(members) => if members.contains_key(key) {
                Some(members[key])
            } else {
                None
            },
            _ => None,
        }
    }

    /// The characters of this value, when it is a string.
    pub open spec fn text(self) -> Option<Seq<char>> {
        match self {
            JsonTree::Text(chars) => Some(chars),
            _ => None,
        }
    }

    /// This value as an `i64`, when it is an integer in that range.
    pub open spec fn integer(self) -> Option<i64> {
        match self {
            JsonTree::Integer(n) => if i64::MIN <= n <= i64::MAX {
                Some(n as i64)
            } else {
                None
            },
            _ => None,
        }
    }
}

/// What a `serde_json::Value` holds.
pub uninterp spec fn json_view(v: serde_json::Value) -> JsonTree;

/// The document that `serde_json::from_slice` reads from `bytes`, or `None`
/// where it reports an error.
pub uninterp spec fn json_parse(bytes: Seq<u8>) -> Option<JsonTree>;

/// Calls `serde_json::from_slice`. Trusted: the call succeeds exactly on the
/// inputs for which `json_parse` names a document, and the value returned
/// holds that document.
#[verifier::external_body]
pub(crate) fn parse(bytes: &[u8]) -> (r: Result<serde_json::Value, serde_json::Error>)
    ensures
        match r {
            Ok(v) => json_parse(bytes@) == Some(json_view(v)),
            Err(_) => json_parse(bytes@) is None,
        },
{
    serde_json::from_slice(bytes)
}

/// Calls `serde_json::Value::get` with a string key. Trusted: the result is the
/// member stored under `key` when `v` is an object that has one, and `None`
/// for every other value.
#[verifier::external_body]
pub(crate) fn get<'a>(v: &'a serde_json::Value, key: &str) -> (r: Option<&'a serde_json::Value>)
    ensures
        match json_view(*v).member(key@) {
            Some(found) => r matches Some(x) && json_view(*x) == found,
            None => r is None,
        },
{
    v.get(key)
}

/// Calls `serde_json::Value::as_str`. Trusted: the result is the string's
/// characters when `v` is a string, and `None` for every other value.
#[verifier::external_body]
pub(crate) fn as_str<'a>(v: &'a serde_json::Value) -> (r: Option<&'a str>)
    ensures
        match json_view(*v).text() {
            Some(chars) => r matches Some(s) && s@ == chars,
            None => r is None,
        },
{
    v.as_str()
}

/// Calls `serde_json::Value::as_i64`. Trusted: the result is the number when
/// `v` is an integer that fits an `i64`, and `None` for every other value.
#[verifier::external_body]
pub(crate) fn as_i64(v: &serde_json::Value) -> (r: Option<i64>)
    ensures
        r == json_view(*v).integer(),
{
    v.as_i64()
}

/// The JSON string literal that `serde_json::to_string` writes for a text:
/// the text between double quotes, with the characters that JSON does not
/// take as they are written as escapes.
pub uninterp spec fn json_quoted(text: Seq<char>) -> Seq<char>;

/// Calls `serde_json::to_string` on a string. Trusted: the call succeeds, as
/// serializing a string neither meets a value that JSON cannot say nor
/// writes anywhere but into memory, and returns the literal that
/// `json_quoted` names.
#[verifier::external_body]
pub(crate) fn quote(text: &str) -> (r: Result<String, serde_json::Error>)
    ensures
        r is Ok,
        r matches Ok(literal) ==> literal@ == json_quoted(text@),
{
    serde_json::to_string(text)
}

} // verus!
