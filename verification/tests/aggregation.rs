use ethup::chains::mainnet_config;
use ethup::status::error::{Field, StatusError};
use ethup::status::logic::{
    cl_status, consensus_status, el_status, execution_status, status, Progress,
};
use ethup::status::query::{Method, Query, Reply, Request};
use ethup::status::report::report;
use ethup::status::types::{
    ClApi, ClHealth, ClSync, ClVersion, ConsensusStatus, ElSyncState, ElSyncing, ExecutionStatus,
};

fn answered(code: u16, body: &str) -> Reply {
    Reply::Answered { code, body: body.as_bytes().to_vec() }
}

fn rpc(result: &str) -> Reply {
    answered(200, &format!(r#"{{"jsonrpc":"2.0","id":1,"result":{}}}"#, result))
}

fn healthy_execution() -> Vec<Reply> {
    vec![rpc(r#""reth/v1.1.0""#), rpc(r#""0x1""#), rpc(r#""0x4b7""#), rpc("false")]
}

fn healthy_consensus() -> Vec<Reply> {
    vec![
        answered(200, r#"{"data":{"version":"Lighthouse/v5.1.0"}}"#),
        answered(
            200,
            r#"{"data":{"head_slot":"8841","sync_distance":"0","is_syncing":false,"finalized_epoch":"275"}}"#,
        ),
        answered(200, ""),
    ]
}

fn healthy() -> Vec<Reply> {
    let mut replies = healthy_execution();
    replies.extend(healthy_consensus());
    replies
}

fn expected_execution() -> ExecutionStatus {
    ExecutionStatus {
        version: "reth/v1.1.0".to_string(),
        chain_id: 1,
        head_block: 1207,
        sync: ElSyncState::FullySynced,
    }
}

fn expected_consensus() -> ConsensusStatus {
    ConsensusStatus {
        version: "Lighthouse/v5.1.0".to_string(),
        head_slot: 8841,
        finalized_epoch: Some(275),
        is_syncing: false,
        health: ClHealth::Healthy,
    }
}

#[test]
fn status_asks_the_seven_queries_in_order() {
    let all = healthy();
    let order = [
        Query::ElClientVersion,
        Query::ElChainId,
        Query::ElBlockNumber,
        Query::ElSyncing,
        Query::ClVersion,
        Query::ClSyncing,
        Query::ClHealth,
    ];
    for (answered, query) in order.iter().enumerate() {
        assert_eq!(status(&all[..answered]), Progress::Ask(*query));
    }
}

#[test]
fn status_of_two_healthy_nodes() {
    assert_eq!(status(&healthy()), Progress::Ready((expected_execution(), expected_consensus())));
}

#[test]
fn status_ignores_replies_beyond_the_seventh() {
    let mut replies = healthy();
    replies.push(Reply::Unreachable);
    replies.push(answered(500, "x"));
    assert_eq!(status(&replies), Progress::Ready((expected_execution(), expected_consensus())));
}

#[test]
fn status_of_a_syncing_execution_node() {
    let mut replies = healthy();
    replies[3] = rpc(r#"{"startingBlock":"0x0","currentBlock":"0x32","highestBlock":"0xc8"}"#);
    let mut execution = expected_execution();
    execution.sync = ElSyncState::syncing(0, 50, 200);
    assert_eq!(status(&replies), Progress::Ready((execution, expected_consensus())));
}

#[test]
fn status_fails_when_consensus_version_returns_500() {
    let mut replies = healthy_execution();
    assert_eq!(el_status(&replies), Progress::Ready(expected_execution()));
    replies.push(answered(500, "Internal Server Error"));
    let failure = StatusError::HttpStatus { query: Query::ClVersion, code: 500 };
    assert_eq!(status(&replies), Progress::Failed(failure));
    let (el, cl) = mainnet_config("/home/op");
    assert_eq!(
        failure.describe(&el, &cl),
        "CL endpoint http://127.0.0.1:5052/eth/v1/node/version returned HTTP 500"
    );
    assert_eq!(failure.query(), Query::ClVersion);
    assert_eq!(failure.query().endpoint(), "eth/v1/node/version");
}

#[test]
fn status_keeps_its_failure_whatever_follows() {
    let mut replies = healthy_execution();
    replies.push(answered(500, ""));
    replies.extend(healthy_consensus());
    assert_eq!(
        status(&replies),
        Progress::Failed(StatusError::HttpStatus { query: Query::ClVersion, code: 500 })
    );
}

#[test]
fn status_fails_on_the_first_unreachable_query() {
    let all = healthy();
    let order = [
        Query::ElClientVersion,
        Query::ElChainId,
        Query::ElBlockNumber,
        Query::ElSyncing,
        Query::ClVersion,
        Query::ClSyncing,
        Query::ClHealth,
    ];
    for (place, query) in order.iter().enumerate() {
        let mut replies = all[..place].to_vec();
        replies.push(Reply::Unreachable);
        assert_eq!(status(&replies), Progress::Failed(StatusError::Transport { query: *query }));
    }
}

#[test]
fn execution_answers_are_decoded_only_when_all_are_there() {
    let mut replies = healthy_execution();
    replies[1] = rpc(r#""0xzz""#);
    assert_eq!(el_status(&replies[..2]), Progress::Ask(Query::ElBlockNumber));
    assert_eq!(el_status(&replies[..3]), Progress::Ask(Query::ElSyncing));
    assert_eq!(
        el_status(&replies),
        Progress::Failed(StatusError::Decode { query: Query::ElChainId, field: Field::ChainId })
    );
    replies[3] = Reply::Unreachable;
    assert_eq!(
        el_status(&replies),
        Progress::Failed(StatusError::Transport { query: Query::ElSyncing })
    );
}

#[test]
fn execution_sync_answer_is_told_apart_before_the_numbers() {
    let mut replies = healthy_execution();
    replies[1] = rpc(r#""0xzz""#);
    replies[3] = rpc("null");
    assert_eq!(
        el_status(&replies),
        Progress::Failed(StatusError::Decode { query: Query::ElSyncing, field: Field::Body })
    );
}

#[test]
fn execution_numbers_fail_in_their_order() {
    let decode = |query, field| Progress::Failed(StatusError::Decode { query, field });
    let mut replies = healthy_execution();
    replies[2] = rpc(r#""0xzz""#);
    replies[3] = rpc(r#"{"startingBlock":"q","currentBlock":"0x32","highestBlock":"0xc8"}"#);
    assert_eq!(el_status(&replies), decode(Query::ElBlockNumber, Field::HeadBlock));
    replies[2] = rpc(r#""0x10""#);
    assert_eq!(el_status(&replies), decode(Query::ElSyncing, Field::StartingBlock));
    replies[1] = rpc(r#""1""#);
    assert_eq!(el_status(&replies), decode(Query::ElChainId, Field::ChainId));
}

#[test]
fn execution_answer_without_text_fails_on_its_body() {
    let bodies = [
        r#"{"jsonrpc":"2.0","id":1,"error":{"code":-32601}}"#,
        r#"{"jsonrpc":"2.0","id":1,"result":null}"#,
        r#"{"jsonrpc":"2.0","id":1,"result":7}"#,
        r#"{"jsonrpc":"2.0","id":1,"result":false}"#,
    ];
    let queries = [Query::ElClientVersion, Query::ElChainId, Query::ElBlockNumber];
    for body in bodies {
        for (place, query) in queries.iter().enumerate() {
            let mut replies = healthy_execution();
            replies[place] = answered(200, body);
            assert_eq!(
                el_status(&replies[..place + 1]),
                Progress::Failed(StatusError::Decode { query: *query, field: Field::Body }),
                "{} at {}",
                body,
                place
            );
            assert_eq!(
                el_status(&replies),
                Progress::Failed(StatusError::Decode { query: *query, field: Field::Body })
            );
        }
    }
}

#[test]
fn execution_answer_needs_success() {
    let all = healthy();
    let queries = [Query::ElClientVersion, Query::ElChainId, Query::ElBlockNumber, Query::ElSyncing];
    for (place, query) in queries.iter().enumerate() {
        for code in [404u16, 500, 503] {
            let mut replies = all[..place].to_vec();
            replies.push(answered(code, r#"{"jsonrpc":"2.0","id":1,"result":"0x1"}"#));
            let failure = StatusError::HttpStatus { query: *query, code };
            assert_eq!(el_status(&replies), Progress::Failed(failure));
            assert_eq!(status(&replies), Progress::Failed(failure));
        }
    }
}

#[test]
fn execution_status_is_put_together() {
    let syncing = ElSyncing::Syncing {
        starting_block: "0x0".to_string(),
        current_block: "0x32".to_string(),
        highest_block: "0xc8".to_string(),
    };
    assert_eq!(
        execution_status("reth".to_string(), "0x88bb0", "0x10", &syncing),
        Ok(ExecutionStatus {
            version: "reth".to_string(),
            chain_id: 560048,
            head_block: 16,
            sync: ElSyncState::syncing(0, 50, 200),
        })
    );
    assert_eq!(
        execution_status("reth".to_string(), "?", "0x10", &ElSyncing::NotSyncing(false)),
        Err(StatusError::Decode { query: Query::ElChainId, field: Field::ChainId })
    );
}

#[test]
fn consensus_queries_fail_on_their_own_shape() {
    let mut replies = healthy_consensus();
    replies[0] = answered(200, r#"{"data":{}}"#);
    assert_eq!(
        cl_status(&replies),
        Progress::Failed(StatusError::Decode { query: Query::ClVersion, field: Field::Body })
    );
    let mut replies = healthy_consensus();
    replies[1] = answered(200, r#"{"data":{"head_slot":"1"}}"#);
    assert_eq!(
        cl_status(&replies),
        Progress::Failed(StatusError::Decode { query: Query::ClSyncing, field: Field::Body })
    );
    let mut replies = healthy_consensus();
    replies[1] = answered(404, r#"{"data":{"head_slot":"1","is_syncing":true}}"#);
    assert_eq!(
        cl_status(&replies),
        Progress::Failed(StatusError::HttpStatus { query: Query::ClSyncing, code: 404 })
    );
}

#[test]
fn consensus_numbers_are_decoded_after_the_health_probe() {
    let mut replies = healthy_consensus();
    replies[1] = answered(200, r#"{"data":{"head_slot":"0x10","is_syncing":true}}"#);
    assert_eq!(cl_status(&replies[..2]), Progress::Ask(Query::ClHealth));
    assert_eq!(
        cl_status(&replies),
        Progress::Failed(StatusError::Decode { query: Query::ClSyncing, field: Field::HeadSlot })
    );
    replies[2] = Reply::Unreachable;
    assert_eq!(
        cl_status(&replies),
        Progress::Failed(StatusError::Transport { query: Query::ClHealth })
    );
}

#[test]
fn consensus_health_is_data_not_failure() {
    for (code, health) in [
        (200u16, ClHealth::Healthy),
        (206, ClHealth::Syncing),
        (503, ClHealth::Unhealthy),
        (404, ClHealth::Unknown(404)),
        (500, ClHealth::Unknown(500)),
    ] {
        let mut replies = healthy_consensus();
        replies[2] = answered(code, "ignored");
        let mut expected = expected_consensus();
        expected.health = health;
        assert_eq!(cl_status(&replies), Progress::Ready(expected));
    }
}

#[test]
fn consensus_status_without_finalized_epoch() {
    let version = ClApi { data: ClVersion { version: "lh".to_string() } };
    let sync = ClApi {
        data: ClSync { head_slot: "0".to_string(), is_syncing: true, finalized_epoch: None },
    };
    assert_eq!(
        consensus_status(version, &sync, ClHealth::Syncing),
        Ok(ConsensusStatus {
            version: "lh".to_string(),
            head_slot: 0,
            finalized_epoch: None,
            is_syncing: true,
            health: ClHealth::Syncing,
        })
    );
}

#[test]
fn consensus_status_names_the_number_that_does_not_decode() {
    let version = || ClApi { data: ClVersion { version: "lh".to_string() } };
    let sync = |slot: &str, epoch: Option<&str>| ClApi {
        data: ClSync {
            head_slot: slot.to_string(),
            is_syncing: false,
            finalized_epoch: epoch.map(|e| e.to_string()),
        },
    };
    let decode = |field| Err(StatusError::Decode { query: Query::ClSyncing, field });
    assert_eq!(
        consensus_status(version(), &sync("x", Some("y")), ClHealth::Healthy),
        decode(Field::HeadSlot)
    );
    assert_eq!(
        consensus_status(version(), &sync("1", Some("")), ClHealth::Healthy),
        decode(Field::FinalizedEpoch)
    );
    assert_eq!(
        consensus_status(version(), &sync("18446744073709551616", None), ClHealth::Healthy),
        decode(Field::HeadSlot)
    );
}

#[test]
fn requests_go_to_the_right_endpoints() {
    let (el, cl) = mainnet_config("/home/op");
    let post = |method: &str| Request {
        method: Method::Post,
        url: "http://127.0.0.1:8545".to_string(),
        body: format!(r#"{{"jsonrpc":"2.0","id":1,"method":"{}","params":[]}}"#, method),
    };
    let get = |path: &str| Request {
        method: Method::Get,
        url: format!("http://127.0.0.1:5052/{}", path),
        body: String::new(),
    };
    assert_eq!(Query::ElClientVersion.request(&el, &cl), post("web3_clientVersion"));
    assert_eq!(Query::ElChainId.request(&el, &cl), post("eth_chainId"));
    assert_eq!(Query::ElBlockNumber.request(&el, &cl), post("eth_blockNumber"));
    assert_eq!(Query::ElSyncing.request(&el, &cl), post("eth_syncing"));
    assert_eq!(Query::ClVersion.request(&el, &cl), get("eth/v1/node/version"));
    assert_eq!(Query::ClSyncing.request(&el, &cl), get("eth/v1/node/syncing"));
    assert_eq!(Query::ClHealth.request(&el, &cl), get("eth/v1/node/health"));
}

#[test]
fn request_bodies_are_json() {
    let (el, cl) = mainnet_config("/home/op");
    let body = Query::ElSyncing.request(&el, &cl).body;
    let value: serde_json::Value = serde_json::from_str(&body).unwrap();
    assert_eq!(value["jsonrpc"].as_str(), Some("2.0"));
    assert_eq!(value["id"].as_u64(), Some(1));
    assert_eq!(value["method"].as_str(), Some("eth_syncing"));
    assert_eq!(value["params"].as_array().map(|a| a.len()), Some(0));
}

#[test]
fn queries_know_their_side() {
    assert!(Query::ElClientVersion.is_execution());
    assert!(Query::ElChainId.is_execution());
    assert!(Query::ElBlockNumber.is_execution());
    assert!(Query::ElSyncing.is_execution());
    assert!(!Query::ClVersion.is_execution());
    assert!(!Query::ClSyncing.is_execution());
    assert!(!Query::ClHealth.is_execution());
}

#[test]
fn failures_are_described() {
    let (el, cl) = mainnet_config("/home/op");
    assert_eq!(
        StatusError::Transport { query: Query::ElChainId }.describe(&el, &cl),
        "EL endpoint http://127.0.0.1:8545 gave no answer to eth_chainId"
    );
    assert_eq!(
        StatusError::Decode { query: Query::ElSyncing, field: Field::HighestBlock }
            .describe(&el, &cl),
        "EL endpoint http://127.0.0.1:8545 answered eth_syncing with an undecodable highestBlock"
    );
    assert_eq!(
        StatusError::Decode { query: Query::ClSyncing, field: Field::HeadSlot }.describe(&el, &cl),
        "CL endpoint http://127.0.0.1:5052/eth/v1/node/syncing answered eth/v1/node/syncing with an undecodable head_slot"
    );
    assert_eq!(
        StatusError::HttpStatus { query: Query::ClSyncing, code: 404 }.describe(&el, &cl),
        "CL endpoint http://127.0.0.1:5052/eth/v1/node/syncing returned HTTP 404"
    );
    assert_eq!(
        StatusError::HttpStatus { query: Query::ElSyncing, code: 502 }.describe(&el, &cl),
        "EL endpoint http://127.0.0.1:8545 returned HTTP 502"
    );
}

#[test]
fn fields_have_names() {
    assert_eq!(Field::Body.name(), "body");
    assert_eq!(Field::ChainId.name(), "chain id");
    assert_eq!(Field::HeadBlock.name(), "head block");
    assert_eq!(Field::StartingBlock.name(), "startingBlock");
    assert_eq!(Field::CurrentBlock.name(), "currentBlock");
    assert_eq!(Field::HighestBlock.name(), "highestBlock");
    assert_eq!(Field::HeadSlot.name(), "head_slot");
    assert_eq!(Field::FinalizedEpoch.name(), "finalized_epoch");
}

#[test]
fn report_of_two_healthy_nodes() {
    assert_eq!(
        report(&expected_execution(), &expected_consensus()),
        vec![
            "Execution Client Running:",
            "  Version: reth/v1.1.0",
            "  Chain ID: 1",
            "  Executed Blocks: 1207",
            "  Sync: Fully synced",
            "",
            "Consensus Client Running:",
            "  Version: Lighthouse/v5.1.0",
            "  Head slot: 8841",
            "  Finalized epoch: 275",
            "  Sync: not syncing",
            "  Health: healthy",
        ]
    );
}

#[test]
fn report_of_two_syncing_nodes() {
    let mut execution = expected_execution();
    execution.sync = ElSyncState::syncing(0, 50, 200);
    let mut consensus = expected_consensus();
    consensus.finalized_epoch = None;
    consensus.is_syncing = true;
    consensus.health = ClHealth::Unknown(418);
    assert_eq!(
        report(&execution, &consensus),
        vec![
            "Execution Client Running:",
            "  Version: reth/v1.1.0",
            "  Chain ID: 1",
            "  Executed Blocks: 1207",
            "  Sync: 0 \u{2192} 50 / 200 (25.00%)",
            "",
            "Consensus Client Running:",
            "  Version: Lighthouse/v5.1.0",
            "  Head slot: 8841",
            "  Sync: syncing",
            "  Health: unknown (418)",
        ]
    );
}

#[test]
fn report_tells_epoch_zero_from_none() {
    let mut consensus = expected_consensus();
    consensus.finalized_epoch = Some(0);
    let lines = report(&expected_execution(), &consensus);
    assert_eq!(lines.len(), 12);
    assert_eq!(lines[9], "  Finalized epoch: 0");
    consensus.finalized_epoch = None;
    assert_eq!(report(&expected_execution(), &consensus).len(), 11);
}

#[test]
fn bodies_are_read_only_where_they_matter() {
    let queries = [
        Query::ElClientVersion,
        Query::ElChainId,
        Query::ElBlockNumber,
        Query::ElSyncing,
        Query::ClVersion,
        Query::ClSyncing,
    ];
    for query in queries {
        assert!(query.reads_body(200));
        assert!(query.reads_body(299));
        assert!(!query.reads_body(199));
        assert!(!query.reads_body(300));
        assert!(!query.reads_body(404));
        assert!(!query.reads_body(500));
    }
    for code in [200u16, 206, 404, 503] {
        assert!(!Query::ClHealth.reads_body(code));
    }
}

#[test]
fn an_unread_body_changes_nothing() {
    let mut replies = healthy_execution();
    replies.push(Reply::Answered { code: 500, body: Vec::new() });
    let without = status(&replies);
    replies[4] = answered(500, r#"{"data":{"version":"Lighthouse/v5.1.0"}}"#);
    assert_eq!(status(&replies), without);
    let mut replies = healthy();
    replies[6] = Reply::Answered { code: 200, body: Vec::new() };
    assert_eq!(status(&replies), status(&healthy()));
    let mut replies = healthy();
    replies[1] = Reply::Answered { code: 502, body: Vec::new() };
    let without = status(&replies);
    replies[1] = answered(502, r#"{"jsonrpc":"2.0","id":1,"result":"0x1"}"#);
    assert_eq!(status(&replies), without);
    assert_eq!(
        without,
        Progress::Failed(StatusError::HttpStatus { query: Query::ElChainId, code: 502 })
    );
}
