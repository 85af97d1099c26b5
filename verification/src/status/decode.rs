//! Reading the answers of the two nodes: from a reply to its JSON document,
//! and from the document to what it carries.

use crate::json::{
    flag_at, json_document, json_flag, json_is_null, json_member, json_nodes, json_parse, json_text,
    lemma_node_below, node_at, nodes_below, text_at, JsonDoc, JsonNode,
};
use crate::status::error::{Field, StatusError};
use crate::status::query::{is_success, Query, Reply};
use crate::status::types::{
    ClApi, ClHealth, ClSync, ClSyncView, ClVersion, ClVersionView, ElSyncing, ElSyncingView,
};
use vstd::prelude::*;
use vstd::string::*;

verus! {

/// The JSON document of an answer to `query`: a failure of transport where
/// there is no answer, of status where the code says anything but success,
/// whatever the body, and of decoding where the body is no JSON document.
pub open spec fn answer_of(query: Query, reply: Reply) -> Result<JsonDoc, StatusError> {
    match reply {
        Reply::Unreachable => Err(StatusError::Transport { query }),
        Reply::Answered { code, body } => {
            if !is_success(code) {
                Err(StatusError::HttpStatus { query, code })
            } else {
                match json_document(body@) {
                    Some(doc) => Ok(doc),
                    None => Err(StatusError::Decode { query, field: Field::Body }),
                }
            }
        },
    }
}

/// The answer of the execution node to the JSON-RPC call `query`, as the
/// JSON document that carries the result of the call. Any status but
/// success is a failure, whatever the body.
pub fn el_rpc(query: Query, reply: &Reply) -> (r: Result<serde_json::Value, StatusError>)
    ensures
        match r {
            Ok(value) => answer_of(query, *reply) == Ok::<JsonDoc, StatusError>(json_nodes(value)),
            Err(error) => answer_of(query, *reply) == Err::<JsonDoc, StatusError>(error),
        },
{
    match reply {
        Reply::Unreachable => Err(StatusError::Transport { query }),
        Reply::Answered { code, body } => {
            if !(200 <= *code && *code < 300) {
                Err(StatusError::HttpStatus { query, code: *code })
            } else {
                match json_parse(body.as_slice()) {
                    Ok(value) => Ok(value),
                    Err(_) => Err(StatusError::Decode { query, field: Field::Body }),
                }
            }
        },
    }
}

/// A payload that is read from a JSON value.
pub trait FromJson: DeepView + Sized {
    /// The payload that stands in `doc`, if `doc` has the shape of one.
    spec fn payload_of(doc: JsonDoc) -> Option<<Self as DeepView>::V>;

    /// Reads the payload from `value`.
    fn from_json(value: &serde_json::Value) -> (r: Option<Self>)
        ensures
            r.deep_view() == Self::payload_of(json_nodes(*value)),
    ;
}

/// The payload of an answer to `query`: the failure of the answer itself, or
/// a failure to decode the body where its document has not the shape of the
/// payload.
pub open spec fn payload_answer_of<T: FromJson>(query: Query, reply: Reply) -> Result<
    <T as DeepView>::V,
    StatusError,
> {
    match answer_of(query, reply) {
        Ok(doc) => match T::payload_of(doc) {
            Some(payload) => Ok(payload),
            None => Err(StatusError::Decode { query, field: Field::Body }),
        },
        Err(error) => Err(error),
    }
}

/// The answer of the consensus node to the REST call `query`, read as the
/// payload that the query asks for. Any status but success is a failure,
/// whatever the body.
pub fn cl_get<T: FromJson>(query: Query, reply: &Reply) -> (r: Result<T, StatusError>)
    ensures
        match r {
            Ok(payload) => payload_answer_of::<T>(query, *reply) == Ok::<
                <T as DeepView>::V,
                StatusError,
            >(payload.deep_view()),
            Err(error) => payload_answer_of::<T>(query, *reply) == Err::<
                <T as DeepView>::V,
                StatusError,
            >(error),
        },
{
    match reply {
        Reply::Unreachable => Err(StatusError::Transport { query }),
        Reply::Answered { code, body } => {
            if !(200 <= *code && *code < 300) {
                Err(StatusError::HttpStatus { query, code: *code })
            } else {
                match json_parse(body.as_slice()) {
                    Ok(value) => match T::from_json(&value) {
                        Some(payload) => Ok(payload),
                        None => Err(StatusError::Decode { query, field: Field::Body }),
                    },
                    Err(_) => Err(StatusError::Decode { query, field: Field::Body }),
                }
            }
        },
    }
}

/// What the health probe says: the body is ignored and the status code
/// classified, whatever it is.
pub open spec fn health_of(reply: Reply) -> Result<ClHealth, StatusError> {
    match reply {
        Reply::Unreachable => Err(StatusError::Transport { query: Query::ClHealth }),
        Reply::Answered { code, body } => Ok(ClHealth::of_code(code)),
    }
}

/// The health of the consensus node, from the answer to its health probe.
pub fn cl_health(reply: &Reply) -> (r: Result<ClHealth, StatusError>)
    ensures
        r == health_of(*reply),
{
    match reply {
        Reply::Unreachable => Err(StatusError::Transport { query: Query::ClHealth }),
        Reply::Answered { code, body } => Ok(ClHealth::from_code(*code)),
    }
}

/// The text of the member `key` of `value`, where `value` is an object whose
/// member `key` is a JSON string.
fn member_text(value: &serde_json::Value, key: &str) -> (r: Option<String>)
    ensures
        r.deep_view() == text_at(json_nodes(*value), seq![key@]),
{
    proof {
        lemma_node_below(json_nodes(*value), key@, Seq::empty());
        assert(seq![key@] + Seq::<Seq<char>>::empty() =~= seq![key@]);
    }
    match json_member(value, key) {
        None => None,
        Some(member) => match json_text(member) {
            None => None,
            Some(text) => Some(String::from_str(text)),
        },
    }
}

/// The text that a JSON-RPC answer carries under `result`, if a JSON string
/// stands there.
pub open spec fn rpc_text_of(doc: JsonDoc) -> Option<Seq<char>> {
    text_at(doc, seq!["result"@])
}

/// The text under `result` of a JSON-RPC answer.
pub fn rpc_text(answer: &serde_json::Value) -> (r: Option<String>)
    ensures
        r.deep_view() == rpc_text_of(json_nodes(*answer)),
{
    member_text(answer, "result")
}

/// The sync answer that stands in `doc`: a boolean is taken as it is; else
/// an object gives its members `startingBlock`, `currentBlock` and
/// `highestBlock` if all three are JSON strings; anything else is no sync
/// answer. Other members of the object do not matter.
pub open spec fn syncing_of(doc: JsonDoc) -> Option<ElSyncingView> {
    match flag_at(doc, Seq::empty()) {
        Some(flag) => Some(ElSyncingView::NotSyncing(flag)),
        None => match (
            text_at(doc, seq!["startingBlock"@]),
            text_at(doc, seq!["currentBlock"@]),
            text_at(doc, seq!["highestBlock"@]),
        ) {
            (Some(starting_block), Some(current_block), Some(highest_block)) => Some(
                ElSyncingView::Syncing { starting_block, current_block, highest_block },
            ),
            _ => None,
        },
    }
}

/// The sync answer under `result` of a JSON-RPC answer.
pub open spec fn rpc_syncing_of(doc: JsonDoc) -> Option<ElSyncingView> {
    syncing_of(nodes_below(doc, "result"@))
}

impl FromJson for ElSyncing {
    open spec fn payload_of(doc: JsonDoc) -> Option<ElSyncingView> {
        syncing_of(doc)
    }

    /// Tells the two shapes of a sync answer apart by what the value is, as
    /// the answer carries no tag: first a boolean is tried, then the object
    /// of three hex quantities.
    fn from_json(value: &serde_json::Value) -> (r: Option<ElSyncing>) {
        match json_flag(value) {
            Some(flag) => Some(ElSyncing::NotSyncing(flag)),
            None => {
                let starting = member_text(value, "startingBlock");
                let current = member_text(value, "currentBlock");
                let highest = member_text(value, "highestBlock");
                match (starting, current, highest) {
                    (Some(starting_block), Some(current_block), Some(highest_block)) => Some(
                        ElSyncing::Syncing { starting_block, current_block, highest_block },
                    ),
                    _ => None,
                }
            },
        }
    }
}

/// The sync answer under `result` of a JSON-RPC answer.
pub fn rpc_syncing(answer: &serde_json::Value) -> (r: Option<ElSyncing>)
    ensures
        r.deep_view() == rpc_syncing_of(json_nodes(*answer)),
{
    match json_member(answer, "result") {
        None => None,
        Some(result) => ElSyncing::from_json(result),
    }
}

/// The version answer that stands in `doc`: the text at `data.version`.
pub open spec fn cl_version_of(doc: JsonDoc) -> Option<ClApi<ClVersionView>> {
    match text_at(doc, seq!["data"@, "version"@]) {
        Some(version) => Some(ClApi { data: ClVersionView { version } }),
        None => None,
    }
}

/// The syncing answer that stands in `doc`: under `data`, the text
/// `head_slot`, the boolean `is_syncing`, and `finalized_epoch`, which may be
/// a text, `null` or absent, and nothing else.
pub open spec fn cl_sync_of(doc: JsonDoc) -> Option<ClApi<ClSyncView>> {
    match (
        text_at(doc, seq!["data"@, "head_slot"@]),
        flag_at(doc, seq!["data"@, "is_syncing"@]),
        node_at(doc, seq!["data"@, "finalized_epoch"@]),
    ) {
        (Some(head_slot), Some(is_syncing), None) | (
            Some(head_slot),
            Some(is_syncing),
            Some(JsonNode::Null),
        ) => Some(ClApi { data: ClSyncView { head_slot, is_syncing, finalized_epoch: None } }),
        (Some(head_slot), Some(is_syncing), Some(JsonNode::Text(epoch))) => Some(
            ClApi { data: ClSyncView { head_slot, is_syncing, finalized_epoch: Some(epoch) } },
        ),
        _ => None,
    }
}

impl FromJson for ClApi<ClVersion> {
    open spec fn payload_of(doc: JsonDoc) -> Option<ClApi<ClVersionView>> {
        cl_version_of(doc)
    }

    /// Reads the version answer of the consensus node.
    fn from_json(answer: &serde_json::Value) -> (r: Option<ClApi<ClVersion>>) {
        proof {
            lemma_node_below(json_nodes(*answer), "data"@, seq!["version"@]);
            assert(seq!["data"@] + seq!["version"@] =~= seq!["data"@, "version"@]);
        }
        match json_member(answer, "data") {
            None => None,
            Some(data) => match member_text(data, "version") {
                None => None,
                Some(version) => Some(ClApi { data: ClVersion { version } }),
            },
        }
    }
}

impl FromJson for ClApi<ClSync> {
    open spec fn payload_of(doc: JsonDoc) -> Option<ClApi<ClSyncView>> {
        cl_sync_of(doc)
    }

    /// Reads the syncing answer of the consensus node.
    fn from_json(answer: &serde_json::Value) -> (r: Option<ClApi<ClSync>>) {
        let ghost doc = json_nodes(*answer);
        proof {
            lemma_node_below(doc, "data"@, seq!["head_slot"@]);
            lemma_node_below(doc, "data"@, seq!["is_syncing"@]);
            lemma_node_below(doc, "data"@, seq!["finalized_epoch"@]);
            assert(seq!["data"@] + seq!["head_slot"@] =~= seq!["data"@, "head_slot"@]);
            assert(seq!["data"@] + seq!["is_syncing"@] =~= seq!["data"@, "is_syncing"@]);
            assert(seq!["data"@] + seq!["finalized_epoch"@] =~= seq!["data"@, "finalized_epoch"@]);
        }
        let data = match json_member(answer, "data") {
            None => {
                return None;
            },
            Some(data) => data,
        };
        let ghost below = json_nodes(*data);
        proof {
            lemma_node_below(below, "is_syncing"@, Seq::empty());
            lemma_node_below(below, "finalized_epoch"@, Seq::empty());
            assert(seq!["is_syncing"@] + Seq::<Seq<char>>::empty() =~= seq!["is_syncing"@]);
            assert(seq!["finalized_epoch"@] + Seq::<Seq<char>>::empty() =~= seq![
                "finalized_epoch"@,
            ]);
        }
        let head_slot = match member_text(data, "head_slot") {
            None => {
                return None;
            },
            Some(head_slot) => head_slot,
        };
        let is_syncing = match json_member(data, "is_syncing") {
            None => {
                return None;
            },
            Some(member) => match json_flag(member) {
                None => {
                    return None;
                },
                Some(flag) => flag,
            },
        };
        let finalized_epoch = match json_member(data, "finalized_epoch") {
            None => None,
            Some(member) => {
                if json_is_null(member) {
                    None
                } else {
                    match json_text(member) {
                        None => {
                            return None;
                        },
                        Some(epoch) => Some(String::from_str(epoch)),
                    }
                }
            },
        };
        Some(ClApi { data: ClSync { head_slot, is_syncing, finalized_epoch } })
    }
}

/// A body that is not to be read changes nothing: what the answer comes to
/// is the same whatever stands in its place.
pub proof fn lemma_unread_body_is_ignored(query: Query, code: u16, body: Vec<u8>, other: Vec<u8>)
    requires
        !query.body_matters(code),
    ensures
        query is ClHealth ==> health_of(Reply::Answered { code, body }) == health_of(
            Reply::Answered { code, body: other },
        ),
        query !is ClHealth ==> answer_of(query, Reply::Answered { code, body }) == answer_of(
            query,
            Reply::Answered { code, body: other },
        ),
        query !is ClHealth ==> answer_of(query, Reply::Answered { code, body }) == Err::<
            JsonDoc,
            StatusError,
        >(StatusError::HttpStatus { query, code }),
{
}

} // verus!
