//! From the answers of the two nodes to their status.
//!
//! The caller sends the queries and hands back what came of each one as a
//! [`Reply`]; [`status`] says which query is due next, or what the status is,
//! or on which query the attempt failed. Nothing is retried and nothing is
//! made up: the first failure, in the order in which the queries are sent and
//! their answers read, is the result.

use crate::numeral::{
    digit_of, is_numeral, lemma_digit_run, lemma_numeral_of_digits, lemma_numeral_round_trip,
    lemma_unsigned_of_numerals, numeral_of, numeral_value, parse_unsigned, unsigned_of,
    NumeralError,
};
use crate::status::decode::{
    answer_of, cl_get, cl_health, el_rpc, health_of, payload_answer_of, rpc_syncing,
    rpc_syncing_of, rpc_text, rpc_text_of, FromJson,
};
use crate::status::error::{Field, StatusError};
use crate::status::query::{is_success, Query, Reply};
use crate::status::types::{
    ClApi, ClHealth, ClSync, ClSyncView, ClVersion, ClVersionView, ConsensusStatus,
    ConsensusStatusView, ElSyncState, ElSyncing, ElSyncingView, ExecutionStatus,
    ExecutionStatusView,
};
use vstd::prelude::*;
use vstd::slice::slice_subrange;
use vstd::string::*;

verus! {

/// The number that the hex quantity `s` denotes: `s` is `0x` followed by one
/// or more hexadecimal digits of either case, worth no more than
/// `u64::MAX`. A text without the prefix is no hex quantity, and what follows
/// the prefix is digits only: no sign, and no second prefix.
pub open spec fn hex_u64_of(s: Seq<char>) -> Result<u64, NumeralError> {
    if s.len() == 0 {
        Err(NumeralError::Empty)
    } else if s.len() >= 2 && s[0] == '0' && s[1] == 'x' {
        unsigned_of(s.skip(2), 16)
    } else {
        Err(NumeralError::MissingPrefix)
    }
}

/// The number that the decimal text `s` denotes: `s` is one or more decimal
/// digits, worth no more than `u64::MAX`.
pub open spec fn decimal_u64_of(s: Seq<char>) -> Result<u64, NumeralError> {
    unsigned_of(s, 10)
}

/// Decodes a hex quantity such as `0xff` into the number it denotes.
pub fn parse_hex_u64(s: &str) -> (r: Result<u64, NumeralError>)
    ensures
        r == hex_u64_of(s@),
{
    let n: usize = s.unicode_len();
    if n == 0 {
        return Err(NumeralError::Empty);
    }
    if n < 2 || s.get_char(0) != '0' || s.get_char(1) != 'x' {
        return Err(NumeralError::MissingPrefix);
    }
    assert(s@.skip(2) =~= s@.subrange(2, n as int));
    parse_unsigned(s.substring_char(2, n), 16)
}

/// The hex quantity that writes `n`: `0x`, then the hexadecimal numeral in
/// lower case, without leading zeros.
pub open spec fn hex_quantity_of(n: u64) -> Seq<char> {
    "0x"@ + numeral_of(n as nat, 16)
}

/// Decoding the hex quantity of a number gives that number back.
pub proof fn lemma_hex_round_trip(n: u64)
    ensures
        hex_u64_of(hex_quantity_of(n)) == Ok::<u64, NumeralError>(n),
{
    let text = hex_quantity_of(n);
    reveal_strlit("0x");
    lemma_numeral_of_digits(n as nat, 16);
    lemma_numeral_round_trip(n, 16);
    assert(text.skip(2) =~= numeral_of(n as nat, 16));
}

/// Whether `s` is a hex quantity: `0x`, then one or more hexadecimal digits
/// and nothing else.
pub open spec fn is_hex_quantity(s: Seq<char>) -> bool {
    s.len() >= 2 && s[0] == '0' && s[1] == 'x' && is_numeral(s.skip(2), 16)
}

/// A text is decoded exactly where it is a hex quantity that fits in 64
/// bits, and then into the number that its digits denote.
pub proof fn lemma_hex_of_quantities(s: Seq<char>)
    ensures
        hex_u64_of(s) is Ok <==> is_hex_quantity(s) && numeral_value(s.skip(2), 16) <= u64::MAX,
        hex_u64_of(s) matches Ok(n) ==> n == numeral_value(s.skip(2), 16),
{
    lemma_unsigned_of_numerals(s.skip(2), 16);
}

/// A text is a hex quantity only with its prefix, and with the prefix once:
/// digits alone are refused, and so is whatever has a sign or a second `0x`
/// where its digits should begin.
pub proof fn lemma_hex_needs_one_prefix(s: Seq<char>)
    ensures
        s.len() > 0 && !(s.len() >= 2 && s[0] == '0' && s[1] == 'x') ==> hex_u64_of(s) == Err::<
            u64,
            NumeralError,
        >(NumeralError::MissingPrefix),
        s.len() >= 3 && s[0] == '0' && s[1] == 'x' && (s[2] == '+' || s[2] == '-') ==> hex_u64_of(
            s,
        ) == Err::<u64, NumeralError>(NumeralError::InvalidDigit),
        s.len() >= 4 && s[0] == '0' && s[1] == 'x' && s[2] == '0' && s[3] == 'x' ==> hex_u64_of(s)
            == Err::<u64, NumeralError>(NumeralError::InvalidDigit),
{
    if s.len() >= 3 && s[0] == '0' && s[1] == 'x' {
        let digits = s.skip(2);
        if s[2] == '+' || s[2] == '-' {
            assert(digit_of(digits[0], 16) is None);
            lemma_digit_run(digits, 16, 0);
            assert(digits.take(0) =~= Seq::<char>::empty());
        } else if s.len() >= 4 && s[2] == '0' && s[3] == 'x' {
            assert(digit_of(digits[0], 16) == Some(0nat));
            assert(digit_of(digits[1], 16) is None);
            lemma_digit_run(digits, 16, 1);
            let leading = digits.take(1);
            assert(leading.drop_last() =~= Seq::<char>::empty());
            assert(numeral_value(leading.drop_last(), 16) == 0);
            assert(numeral_value(leading, 16) == 0);
        }
    }
}

/// Decodes a decimal text such as `8841` into the number it denotes.
pub fn parse_decimal_u64(s: &str) -> (r: Result<u64, NumeralError>)
    ensures
        r == decimal_u64_of(s@),
{
    parse_unsigned(s, 10)
}

/// The sync state that a sync answer stands for: fully synced for a boolean,
/// whichever it is; else the three blocks decoded from hex, with the share
/// done. The first block that does not decode is the failure.
pub open spec fn sync_state_of(syncing: ElSyncingView) -> Result<ElSyncState, StatusError> {
    match syncing {
        ElSyncingView::NotSyncing(_) => Ok(ElSyncState::FullySynced),
        ElSyncingView::Syncing { starting_block, current_block, highest_block } => {
            match (hex_u64_of(starting_block), hex_u64_of(current_block), hex_u64_of(highest_block)) {
                (Ok(start), Ok(current), Ok(highest)) => Ok(
                    ElSyncState::progress(start, current, highest),
                ),
                (Err(_), _, _) => Err(
                    StatusError::Decode { query: Query::ElSyncing, field: Field::StartingBlock },
                ),
                (_, Err(_), _) => Err(
                    StatusError::Decode { query: Query::ElSyncing, field: Field::CurrentBlock },
                ),
                _ => Err(
                    StatusError::Decode { query: Query::ElSyncing, field: Field::HighestBlock },
                ),
            }
        },
    }
}

/// Works out the sync state from the sync answer of the execution node.
pub fn sync_state(syncing: &ElSyncing) -> (r: Result<ElSyncState, StatusError>)
    ensures
        r == sync_state_of(syncing.deep_view()),
{
    match syncing {
        ElSyncing::NotSyncing(_) => Ok(ElSyncState::FullySynced),
        ElSyncing::Syncing { starting_block, current_block, highest_block } => {
            let start = match parse_hex_u64(starting_block.as_str()) {
                Ok(n) => n,
                Err(_) => {
                    return Err(
                        StatusError::Decode {
                            query: Query::ElSyncing,
                            field: Field::StartingBlock,
                        },
                    );
                },
            };
            let current = match parse_hex_u64(current_block.as_str()) {
                Ok(n) => n,
                Err(_) => {
                    return Err(
                        StatusError::Decode { query: Query::ElSyncing, field: Field::CurrentBlock },
                    );
                },
            };
            let highest = match parse_hex_u64(highest_block.as_str()) {
                Ok(n) => n,
                Err(_) => {
                    return Err(
                        StatusError::Decode { query: Query::ElSyncing, field: Field::HighestBlock },
                    );
                },
            };
            Ok(ElSyncState::syncing(start, current, highest))
        },
    }
}

/// The status of the execution node, from its client version, the hex
/// quantities of its chain and its head block, and its sync answer. The
/// chain is decoded first, then the head block, then the sync answer.
pub open spec fn execution_status_of(
    version: Seq<char>,
    chain_id: Seq<char>,
    head_block: Seq<char>,
    syncing: ElSyncingView,
) -> Result<ExecutionStatusView, StatusError> {
    match (hex_u64_of(chain_id), hex_u64_of(head_block), sync_state_of(syncing)) {
        (Ok(chain_id), Ok(head_block), Ok(sync)) => Ok(
            ExecutionStatusView { version, chain_id, head_block, sync },
        ),
        (Err(_), _, _) => Err(
            StatusError::Decode { query: Query::ElChainId, field: Field::ChainId },
        ),
        (_, Err(_), _) => Err(
            StatusError::Decode { query: Query::ElBlockNumber, field: Field::HeadBlock },
        ),
        (_, _, Err(error)) => Err(error),
    }
}

/// Puts the status of the execution node together from what its four
/// answers carried.
pub fn execution_status(
    version: String,
    chain_id: &str,
    head_block: &str,
    syncing: &ElSyncing,
) -> (r: Result<ExecutionStatus, StatusError>)
    ensures
        match r {
            Ok(status) => execution_status_of(
                version@,
                chain_id@,
                head_block@,
                syncing.deep_view(),
            ) == Ok::<ExecutionStatusView, StatusError>(status.deep_view()),
            Err(error) => execution_status_of(
                version@,
                chain_id@,
                head_block@,
                syncing.deep_view(),
            ) == Err::<ExecutionStatusView, StatusError>(error),
        },
{
    let chain_id = match parse_hex_u64(chain_id) {
        Ok(n) => n,
        Err(_) => {
            return Err(StatusError::Decode { query: Query::ElChainId, field: Field::ChainId });
        },
    };
    let head_block = match parse_hex_u64(head_block) {
        Ok(n) => n,
        Err(_) => {
            return Err(
                StatusError::Decode { query: Query::ElBlockNumber, field: Field::HeadBlock },
            );
        },
    };
    let sync = match sync_state(syncing) {
        Ok(sync) => sync,
        Err(error) => {
            return Err(error);
        },
    };
    Ok(ExecutionStatus { version, chain_id, head_block, sync })
}

/// A result with what it holds on success seen as its view.
pub open spec fn result_view<T: DeepView>(r: Result<T, StatusError>) -> Result<T::V, StatusError> {
    match r {
        Ok(value) => Ok(value.deep_view()),
        Err(error) => Err(error),
    }
}

/// The status of the consensus node, from its version answer, its syncing
/// answer and its health. The head slot is decoded first, then the finalized
/// epoch if there is one.
pub open spec fn consensus_status_of(
    version: ClApi<ClVersionView>,
    sync: ClApi<ClSyncView>,
    health: ClHealth,
) -> Result<ConsensusStatusView, StatusError> {
    let finalized_epoch = match sync.data.finalized_epoch {
        Some(epoch) => match decimal_u64_of(epoch) {
            Ok(n) => Ok(Some(n)),
            Err(_) => Err(()),
        },
        None => Ok(None),
    };
    match (decimal_u64_of(sync.data.head_slot), finalized_epoch) {
        (Ok(head_slot), Ok(finalized_epoch)) => Ok(
            ConsensusStatusView {
                version: version.data.version,
                head_slot,
                finalized_epoch,
                is_syncing: sync.data.is_syncing,
                health,
            },
        ),
        (Err(_), _) => Err(
            StatusError::Decode { query: Query::ClSyncing, field: Field::HeadSlot },
        ),
        _ => Err(StatusError::Decode { query: Query::ClSyncing, field: Field::FinalizedEpoch }),
    }
}

/// Puts the status of the consensus node together from what its three
/// answers carried.
pub fn consensus_status(version: ClApi<ClVersion>, sync: &ClApi<ClSync>, health: ClHealth) -> (r:
    Result<ConsensusStatus, StatusError>)
    ensures
        result_view(r) == consensus_status_of(version.deep_view(), sync.deep_view(), health),
{
    let head_slot = match parse_decimal_u64(sync.data.head_slot.as_str()) {
        Ok(n) => n,
        Err(_) => {
            return Err(StatusError::Decode { query: Query::ClSyncing, field: Field::HeadSlot });
        },
    };
    let finalized_epoch = match &sync.data.finalized_epoch {
        Some(epoch) => match parse_decimal_u64(epoch.as_str()) {
            Ok(n) => Some(n),
            Err(_) => {
                return Err(
                    StatusError::Decode { query: Query::ClSyncing, field: Field::FinalizedEpoch },
                );
            },
        },
        None => None,
    };
    Ok(
        ConsensusStatus {
            version: version.data.version,
            head_slot,
            finalized_epoch,
            is_syncing: sync.data.is_syncing,
            health,
        },
    )
}

/// Where a status call stands after the replies so far.
#[derive(Clone, Debug, PartialEq, Eq)]
pub enum Progress<T> {
    /// This query is due next.
    Ask(Query),
    /// The call has failed.
    Failed(StatusError),
    /// The call is done.
    Ready(T),
}

impl<T: DeepView> DeepView for Progress<T> {
    type V = Progress<T::V>;

    open spec fn deep_view(&self) -> Progress<T::V> {
        match self {
            Progress::Ask(query) => Progress::Ask(*query),
            Progress::Failed(error) => Progress::Failed(*error),
            Progress::Ready(value) => Progress::Ready(value.deep_view()),
        }
    }
}

/// The text that the answer to a JSON-RPC call carries under `result`; an
/// answer without a text there is a failure to decode the body.
pub open spec fn el_text_of(query: Query, reply: Reply) -> Result<Seq<char>, StatusError> {
    match answer_of(query, reply) {
        Ok(doc) => match rpc_text_of(doc) {
            Some(text) => Ok(text),
            None => Err(StatusError::Decode { query, field: Field::Body }),
        },
        Err(error) => Err(error),
    }
}

/// The sync answer that the answer to `eth_syncing` carries; a `result` of
/// another shape is a failure to decode the body.
pub open spec fn el_syncing_of(reply: Reply) -> Result<ElSyncingView, StatusError> {
    match answer_of(Query::ElSyncing, reply) {
        Ok(doc) => match rpc_syncing_of(doc) {
            Some(syncing) => Ok(syncing),
            None => Err(StatusError::Decode { query: Query::ElSyncing, field: Field::Body }),
        },
        Err(error) => Err(error),
    }
}

/// The version answer of the consensus node; a body of another shape is a
/// failure to decode it.
pub open spec fn cl_version_reply_of(reply: Reply) -> Result<ClApi<ClVersionView>, StatusError> {
    payload_answer_of::<ClApi<ClVersion>>(Query::ClVersion, reply)
}

/// The syncing answer of the consensus node; a body of another shape is a
/// failure to decode it.
pub open spec fn cl_sync_reply_of(reply: Reply) -> Result<ClApi<ClSyncView>, StatusError> {
    payload_answer_of::<ClApi<ClSync>>(Query::ClSyncing, reply)
}

fn el_text(query: Query, reply: &Reply) -> (r: Result<String, StatusError>)
    ensures
        result_view(r) == el_text_of(query, *reply),
{
    match el_rpc(query, reply) {
        Ok(answer) => match rpc_text(&answer) {
            Some(text) => Ok(text),
            None => Err(StatusError::Decode { query, field: Field::Body }),
        },
        Err(error) => Err(error),
    }
}

fn el_syncing(reply: &Reply) -> (r: Result<ElSyncing, StatusError>)
    ensures
        result_view(r) == el_syncing_of(*reply),
{
    match el_rpc(Query::ElSyncing, reply) {
        Ok(answer) => match rpc_syncing(&answer) {
            Some(syncing) => Ok(syncing),
            None => Err(StatusError::Decode { query: Query::ElSyncing, field: Field::Body }),
        },
        Err(error) => Err(error),
    }
}

/// Where the queries to the execution node stand after `replies`, which
/// answer them in order: client version, chain, head block, sync. Each
/// answer is read as it arrives, and the sync answer is told apart at once;
/// the numbers are decoded only when all four answers are there.
pub open spec fn el_status_of(replies: Seq<Reply>) -> Progress<ExecutionStatusView> {
    if replies.len() < 1 {
        Progress::Ask(Query::ElClientVersion)
    } else if let Err(error) = el_text_of(Query::ElClientVersion, replies[0]) {
        Progress::Failed(error)
    } else if replies.len() < 2 {
        Progress::Ask(Query::ElChainId)
    } else if let Err(error) = el_text_of(Query::ElChainId, replies[1]) {
        Progress::Failed(error)
    } else if replies.len() < 3 {
        Progress::Ask(Query::ElBlockNumber)
    } else if let Err(error) = el_text_of(Query::ElBlockNumber, replies[2]) {
        Progress::Failed(error)
    } else if replies.len() < 4 {
        Progress::Ask(Query::ElSyncing)
    } else if let Err(error) = el_syncing_of(replies[3]) {
        Progress::Failed(error)
    } else {
        match execution_status_of(
            el_text_of(Query::ElClientVersion, replies[0])->Ok_0,
            el_text_of(Query::ElChainId, replies[1])->Ok_0,
            el_text_of(Query::ElBlockNumber, replies[2])->Ok_0,
            el_syncing_of(replies[3])->Ok_0,
        ) {
            Ok(status) => Progress::Ready(status),
            Err(error) => Progress::Failed(error),
        }
    }
}

/// Where the queries to the execution node stand after `replies`.
pub fn el_status(replies: &[Reply]) -> (r: Progress<ExecutionStatus>)
    ensures
        r.deep_view() == el_status_of(replies@),
{
    if replies.len() < 1 {
        return Progress::Ask(Query::ElClientVersion);
    }
    let version = match el_text(Query::ElClientVersion, &replies[0]) {
        Ok(text) => text,
        Err(error) => {
            return Progress::Failed(error);
        },
    };
    if replies.len() < 2 {
        return Progress::Ask(Query::ElChainId);
    }
    let chain_id = match el_text(Query::ElChainId, &replies[1]) {
        Ok(text) => text,
        Err(error) => {
            return Progress::Failed(error);
        },
    };
    if replies.len() < 3 {
        return Progress::Ask(Query::ElBlockNumber);
    }
    let head_block = match el_text(Query::ElBlockNumber, &replies[2]) {
        Ok(text) => text,
        Err(error) => {
            return Progress::Failed(error);
        },
    };
    if replies.len() < 4 {
        return Progress::Ask(Query::ElSyncing);
    }
    let syncing = match el_syncing(&replies[3]) {
        Ok(syncing) => syncing,
        Err(error) => {
            return Progress::Failed(error);
        },
    };
    match execution_status(version, chain_id.as_str(), head_block.as_str(), &syncing) {
        Ok(status) => Progress::Ready(status),
        Err(error) => Progress::Failed(error),
    }
}

/// Where the queries to the consensus node stand after `replies`, which
/// answer them in order: version, syncing, health. The numbers of the
/// syncing answer are decoded only when all three answers are there.
pub open spec fn cl_status_of(replies: Seq<Reply>) -> Progress<ConsensusStatusView> {
    if replies.len() < 1 {
        Progress::Ask(Query::ClVersion)
    } else if let Err(error) = cl_version_reply_of(replies[0]) {
        Progress::Failed(error)
    } else if replies.len() < 2 {
        Progress::Ask(Query::ClSyncing)
    } else if let Err(error) = cl_sync_reply_of(replies[1]) {
        Progress::Failed(error)
    } else if replies.len() < 3 {
        Progress::Ask(Query::ClHealth)
    } else if let Err(error) = health_of(replies[2]) {
        Progress::Failed(error)
    } else {
        match consensus_status_of(
            cl_version_reply_of(replies[0])->Ok_0,
            cl_sync_reply_of(replies[1])->Ok_0,
            health_of(replies[2])->Ok_0,
        ) {
            Ok(status) => Progress::Ready(status),
            Err(error) => Progress::Failed(error),
        }
    }
}

/// Where the queries to the consensus node stand after `replies`.
pub fn cl_status(replies: &[Reply]) -> (r: Progress<ConsensusStatus>)
    ensures
        r.deep_view() == cl_status_of(replies@),
{
    if replies.len() < 1 {
        return Progress::Ask(Query::ClVersion);
    }
    let version = match cl_get::<ClApi<ClVersion>>(Query::ClVersion, &replies[0]) {
        Ok(version) => version,
        Err(error) => {
            return Progress::Failed(error);
        },
    };
    if replies.len() < 2 {
        return Progress::Ask(Query::ClSyncing);
    }
    let sync = match cl_get::<ClApi<ClSync>>(Query::ClSyncing, &replies[1]) {
        Ok(sync) => sync,
        Err(error) => {
            return Progress::Failed(error);
        },
    };
    if replies.len() < 3 {
        return Progress::Ask(Query::ClHealth);
    }
    let health = match cl_health(&replies[2]) {
        Ok(health) => health,
        Err(error) => {
            return Progress::Failed(error);
        },
    };
    match consensus_status(version, &sync, health) {
        Ok(status) => Progress::Ready(status),
        Err(error) => Progress::Failed(error),
    }
}

/// Where a status call stands after `replies`: the execution node is asked
/// first, and the consensus node only once the status of the execution node
/// is there. The fifth reply and those after it answer the consensus node's
/// queries.
pub open spec fn status_of(replies: Seq<Reply>) -> Progress<
    (ExecutionStatusView, ConsensusStatusView),
> {
    match el_status_of(replies) {
        Progress::Ask(query) => Progress::Ask(query),
        Progress::Failed(error) => Progress::Failed(error),
        Progress::Ready(execution) => match cl_status_of(replies.skip(4)) {
            Progress::Ask(query) => Progress::Ask(query),
            Progress::Failed(error) => Progress::Failed(error),
            Progress::Ready(consensus) => Progress::Ready((execution, consensus)),
        },
    }
}

/// Where a status call stands after `replies`, the answers to the queries
/// asked so far, in the order in which they were asked: which query is due
/// next, or on what the call failed, or the status of both nodes.
pub fn status(replies: &[Reply]) -> (r: Progress<(ExecutionStatus, ConsensusStatus)>)
    ensures
        r.deep_view() == status_of(replies@),
{
    match el_status(replies) {
        Progress::Ask(query) => Progress::Ask(query),
        Progress::Failed(error) => Progress::Failed(error),
        Progress::Ready(execution) => {
            let rest = slice_subrange(replies, 4, replies.len());
            assert(rest@ =~= replies@.skip(4));
            match cl_status(rest) {
                Progress::Ask(query) => Progress::Ask(query),
                Progress::Failed(error) => Progress::Failed(error),
                Progress::Ready(consensus) => Progress::Ready((execution, consensus)),
            }
        },
    }
}

/// Only the health probe takes a status code other than success as data:
/// every other query fails on such a code, with that code and whatever the
/// body, while the health probe classifies it.
pub proof fn lemma_only_health_takes_any_status(query: Query, code: u16, body: Vec<u8>)
    requires
        !is_success(code),
    ensures
        el_text_of(query, Reply::Answered { code, body }) == Err::<Seq<char>, StatusError>(
            StatusError::HttpStatus { query, code },
        ),
        el_syncing_of(Reply::Answered { code, body }) == Err::<ElSyncingView, StatusError>(
            StatusError::HttpStatus { query: Query::ElSyncing, code },
        ),
        cl_version_reply_of(Reply::Answered { code, body }) == Err::<
            ClApi<ClVersionView>,
            StatusError,
        >(StatusError::HttpStatus { query: Query::ClVersion, code }),
        cl_sync_reply_of(Reply::Answered { code, body }) == Err::<ClApi<ClSyncView>, StatusError>(
            StatusError::HttpStatus { query: Query::ClSyncing, code },
        ),
        health_of(Reply::Answered { code, body }) == Ok::<ClHealth, StatusError>(
            ClHealth::of_code(code),
        ),
{
}

/// The queries by their place in the order in which they are asked.
pub open spec fn query_at(place: int) -> Query {
    if place <= 0 {
        Query::ElClientVersion
    } else if place == 1 {
        Query::ElChainId
    } else if place == 2 {
        Query::ElBlockNumber
    } else if place == 3 {
        Query::ElSyncing
    } else if place == 4 {
        Query::ClVersion
    } else if place == 5 {
        Query::ClSyncing
    } else {
        Query::ClHealth
    }
}

/// The queries are asked one by one in their order: the query that is due
/// after some replies is the one whose place is their number. After seven
/// replies nothing is asked any more.
pub proof fn lemma_status_asks_in_order(replies: Seq<Reply>)
    ensures
        status_of(replies) matches Progress::Ask(query) ==> replies.len() < 7 && query == query_at(
            replies.len() as int,
        ),
        replies.len() >= 7 ==> status_of(replies) !is Ask,
{
    let rest = replies.skip(4);
    if el_status_of(replies) is Ready {
        assert(replies.len() >= 4);
        assert(rest.len() == replies.len() - 4);
    }
}

/// A status call reports its first failure and nothing after it: once the
/// replies so far have settled the call, as a failure or as the status of
/// both nodes, no further reply changes what it reports.
pub proof fn lemma_status_is_settled(replies: Seq<Reply>, more: Seq<Reply>)
    requires
        status_of(replies) !is Ask,
    ensures
        status_of(replies + more) == status_of(replies),
{
    let longer = replies + more;
    assert forall|i: int| 0 <= i < replies.len() implies longer[i] == replies[i] by {}
    if el_status_of(replies) is Ready {
        let rest = replies.skip(4);
        let longer_rest = longer.skip(4);
        assert(replies.len() >= 4);
        assert forall|i: int| 0 <= i < rest.len() implies longer_rest[i] == rest[i] by {
            assert(longer_rest[i] == longer[i + 4]);
            assert(rest[i] == replies[i + 4]);
        }
        assert(el_status_of(longer) == el_status_of(replies));
        assert(cl_status_of(longer_rest) == cl_status_of(rest));
    } else {
        assert(el_status_of(longer) == el_status_of(replies));
    }
}

/// A failure of the consensus node is reported as such, whatever the
/// execution node said before: where its four answers gave a status and the
/// consensus node then answers the version query with a status code that is
/// no success, the call fails with that code on that query. The status of
/// the execution node is still there for whoever asks [`el_status`].
pub proof fn lemma_consensus_version_must_succeed(replies: Seq<Reply>, code: u16, body: Vec<u8>)
    requires
        el_status_of(replies) is Ready,
        replies.len() > 4,
        replies[4] == (Reply::Answered { code, body }),
        !is_success(code),
    ensures
        status_of(replies) == Progress::<(ExecutionStatusView, ConsensusStatusView)>::Failed(
            StatusError::HttpStatus { query: Query::ClVersion, code },
        ),
{
    assert(replies.skip(4)[0] == replies[4]);
}

} // verus!
