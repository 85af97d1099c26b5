//! The JSON documents that the nodes answer with, read through `serde_json`.
//!
//! A parsed document stays a `serde_json::Value`. Contracts speak of it
//! through [`json_nodes`]: the places in the document that are reached from
//! its root by member names alone, each with what is found there. The
//! functions of this module that touch a `Value` are not verified: each holds
//! one call into `serde_json`, and its contract is what this crate believes of
//! that call.

use vstd::prelude::*;

verus! {

/// `serde_json::Value`, carried as it is: nothing inside it is visible here.
#[verifier::external_type_specification]
#[verifier::external_body]
pub struct ExJsonValue(serde_json::Value);

/// `serde_json::Error`, carried as it is.
#[verifier::external_type_specification]
#[verifier::external_body]
pub struct ExJsonError(serde_json::Error);

/// What stands at one place of a JSON document: which of the six kinds of
/// JSON value, and for a boolean and a string also which one.
pub enum JsonNode {
    Null,
    Bool(bool),
    Number,
    Text(Seq<char>),
    Array,
    Object,
}

/// The places of a document, each named by the member names that lead to it
/// from the root, with what stands there.
pub type JsonDoc = Map<Seq<Seq<char>>, JsonNode>;

/// The places of `value`. The empty path is the value itself; a path that
/// ends in `key` is the member `key` of the object at the path before it,
/// and is a place only if there is such an object with such a member.
/// Elements of arrays have no path.
pub uninterp spec fn json_nodes(value: serde_json::Value) -> Map<Seq<Seq<char>>, JsonNode>;

/// The places of the document that `bytes` spell, or `None` where
/// `serde_json` does not accept them as one JSON value.
pub uninterp spec fn json_document(bytes: Seq<u8>) -> Option<Map<Seq<Seq<char>>, JsonNode>>;

/// What stands at `path` in `doc`, if the document has that place.
pub open spec fn node_at(doc: JsonDoc, path: Seq<Seq<char>>) -> Option<JsonNode> {
    if doc.dom().contains(path) {
        Some(doc[path])
    } else {
        None
    }
}

/// The text at `path`, if a JSON string stands there.
pub open spec fn text_at(doc: JsonDoc, path: Seq<Seq<char>>) -> Option<Seq<char>> {
    match node_at(doc, path) {
        Some(JsonNode::Text(t)) => Some(t),
        _ => None,
    }
}

/// The boolean at `path`, if one stands there.
pub open spec fn flag_at(doc: JsonDoc, path: Seq<Seq<char>>) -> Option<bool> {
    match node_at(doc, path) {
        Some(JsonNode::Bool(b)) => Some(b),
        _ => None,
    }
}

/// The document seen from its member `key`: every path loses that first step.
pub open spec fn nodes_below(doc: JsonDoc, key: Seq<char>) -> JsonDoc {
    Map::new(
        |path: Seq<Seq<char>>| doc.dom().contains(seq![key] + path),
        |path: Seq<Seq<char>>| doc[seq![key] + path],
    )
}

/// A place below the member `key` is the place one step longer in the whole.
pub proof fn lemma_node_below(doc: JsonDoc, key: Seq<char>, path: Seq<Seq<char>>)
    ensures
        node_at(nodes_below(doc, key), path) == node_at(doc, seq![key] + path),
        text_at(nodes_below(doc, key), path) == text_at(doc, seq![key] + path),
        flag_at(nodes_below(doc, key), path) == flag_at(doc, seq![key] + path),
{
}

/// `serde_json::from_slice` at the type `Value`: the result is `Ok` exactly
/// where [`json_document`] has a document for these bytes, and then holds
/// that document.
#[verifier::external_body]
pub(crate) fn json_parse(bytes: &[u8]) -> (r: Result<serde_json::Value, serde_json::Error>)
    ensures
        match r {
            Ok(value) => json_document(bytes@) == Some(json_nodes(value)),
            Err(_) => json_document(bytes@) is None,
        },
{
    serde_json::from_slice::<serde_json::Value>(bytes)
}

/// `Value::get` with a string index: the member `key` where `value` is an
/// object that has it, and then the places of the member, itself among
/// them, are those of `value` below `key`; else `None`, and then `value` has
/// no place below `key`.
#[verifier::external_body]
pub(crate) fn json_member<'a>(value: &'a serde_json::Value, key: &str) -> (r: Option<
    &'a serde_json::Value,
>)
    ensures
        match r {
            Some(member) => json_nodes(*member) == nodes_below(json_nodes(*value), key@)
                && json_nodes(*member).dom().contains(Seq::empty()),
            None => nodes_below(json_nodes(*value), key@) == Map::<
                Seq<Seq<char>>,
                JsonNode,
            >::empty(),
        },
{
    value.get(key)
}

/// `Value::as_str`: the text where `value` is a JSON string, else `None`.
#[verifier::external_body]
pub(crate) fn json_text<'a>(value: &'a serde_json::Value) -> (r: Option<&'a str>)
    ensures
        match r {
            Some(t) => text_at(json_nodes(*value), Seq::empty()) == Some(t@),
            None => text_at(json_nodes(*value), Seq::empty()) is None,
        },
{
    value.as_str()
}

/// `Value::as_bool`: the boolean where `value` is one, else `None`.
#[verifier::external_body]
pub(crate) fn json_flag(value: &serde_json::Value) -> (r: Option<bool>)
    ensures
        r == flag_at(json_nodes(*value), Seq::empty()),
{
    value.as_bool()
}

/// `Value::is_null`: whether `value` is the JSON `null`.
#[verifier::external_body]
pub(crate) fn json_is_null(value: &serde_json::Value) -> (r: bool)
    ensures
        r == (node_at(json_nodes(*value), Seq::empty()) == Some(JsonNode::Null)),
{
    value.is_null()
}

} // verus!
