//! Optional fields of parsed documents.
//!
//! A payload or a reply may lack any field, or hold it with another type
//! than expected. Reading a field therefore never fails: it gives `None`
//! where the path does not lead to a value of the type asked for.

use crate::json::{as_i64, as_str, get, json_view, JsonTree};
use vstd::prelude::*;

verus! {

/// What an optional reference to a parsed value holds.
pub open spec fn tree_of(node: Option<&serde_json::Value>) -> Option<JsonTree> {
    match node {
        Some(v) => Some(json_view(*v)),
        None => None,
    }
}

/// The characters of an optional string.
pub open spec fn chars_of_option(s: Option<String>) -> Option<Seq<char>> {
    match s {
        Some(s) => Some(s@),
        None => None,
    }
}

/// The member `key` of `parent`, where `parent` is an object that has one.
pub open spec fn child(parent: Option<JsonTree>, key: Seq<char>) -> Option<JsonTree> {
    match parent {
        Some(tree) => tree.member(key),
        None => None,
    }
}

/// The characters of `node`, where it is a string.
pub open spec fn text_of(node: Option<JsonTree>) -> Option<Seq<char>> {
    match node {
        Some(tree) => tree.text(),
        None => None,
    }
}

/// The value of `node`, where it is an integer that fits an `i64`.
pub open spec fn integer_of(node: Option<JsonTree>) -> Option<i64> {
    match node {
        Some(tree) => tree.integer(),
        None => None,
    }
}

/// The characters of `node` where it is a string, and the empty text
/// otherwise.
pub open spec fn text_or_empty(node: Option<JsonTree>) -> Seq<char> {
    match text_of(node) {
        Some(chars) => chars,
        None => Seq::empty(),
    }
}

/// Steps from `parent` to its member `key`.
pub fn descend<'a>(parent: Option<&'a serde_json::Value>, key: &str) -> (r: Option<
    &'a serde_json::Value,
>)
    ensures
        tree_of(r) == child(tree_of(parent), key@),
{
    match parent {
        Some(v) => get(v, key),
        None => None,
    }
}

/// Reads `node` as a string.
pub fn read_text(node: Option<&serde_json::Value>) -> (r: Option<String>)
    ensures
        chars_of_option(r) == text_of(tree_of(node)),
{
    match node {
        Some(v) => match as_str(v) {
            Some(s) => Some(s.to_owned()),
            None => None,
        },
        None => None,
    }
}

/// Reads `node` as an integer.
pub fn read_integer(node: Option<&serde_json::Value>) -> (r: Option<i64>)
    ensures
        r == integer_of(tree_of(node)),
{
    match node {
        Some(v) => as_i64(v),
        None => None,
    }
}

/// Reads `node` as a string, and as the empty string where it is none.
pub fn read_text_or_empty(node: Option<&serde_json::Value>) -> (r: String)
    ensures
        r@ == text_or_empty(tree_of(node)),
{
    match read_text(node) {
        Some(text) => text,
        None => String::new(),
    }
}

} // verus!
