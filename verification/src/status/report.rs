//! The status of both nodes as lines for the operator.

use crate::numeral::{decimal_of, push_decimal};
use crate::status::types::{
    ConsensusStatus, ConsensusStatusView, ExecutionStatus, ExecutionStatusView,
};
use vstd::prelude::*;
use vstd::string::*;

verus! {

/// The lines that report the execution node.
pub open spec fn execution_report_of(status: ExecutionStatusView) -> Seq<Seq<char>> {
    seq![
        "Execution Client Running:"@,
        "  Version: "@ + status.version,
        "  Chain ID: "@ + decimal_of(status.chain_id as nat),
        "  Executed Blocks: "@ + decimal_of(status.head_block as nat),
        "  Sync: "@ + status.sync.described(),
    ]
}

/// The lines that report the consensus node. The finalized epoch has a line
/// only where there is one.
pub open spec fn consensus_report_of(status: ConsensusStatusView) -> Seq<Seq<char>> {
    let head = seq![
        "Consensus Client Running:"@,
        "  Version: "@ + status.version,
        "  Head slot: "@ + decimal_of(status.head_slot as nat),
    ];
    let epoch = match status.finalized_epoch {
        Some(epoch) => seq!["  Finalized epoch: "@ + decimal_of(epoch as nat)],
        None => Seq::empty(),
    };
    let tail = seq![
        if status.is_syncing {
            "  Sync: syncing"@
        } else {
            "  Sync: not syncing"@
        },
        "  Health: "@ + status.health.described(),
    ];
    head + epoch + tail
}

/// The whole report: the execution node, an empty line, the consensus node.
pub open spec fn report_of(execution: ExecutionStatusView, consensus: ConsensusStatusView) -> Seq<
    Seq<char>,
> {
    execution_report_of(execution) + seq![Seq::<char>::empty()] + consensus_report_of(consensus)
}

/// `label` followed by `text`.
fn labelled(label: &str, text: &str) -> (r: String)
    ensures
        r@ == label@ + text@,
{
    let mut line = String::from_str(label);
    line.append(text);
    line
}

/// `label` followed by `n` in decimal.
fn counted(label: &str, n: u64) -> (r: String)
    ensures
        r@ == label@ + decimal_of(n as nat),
{
    let mut line = String::from_str(label);
    push_decimal(&mut line, n as u128);
    line
}

/// Writes the status of both nodes as the lines to show, in order.
pub fn report(execution: &ExecutionStatus, consensus: &ConsensusStatus) -> (r: Vec<String>)
    ensures
        r.deep_view() == report_of(execution.deep_view(), consensus.deep_view()),
{
    let mut lines: Vec<String> = Vec::new();
    lines.push(String::from_str("Execution Client Running:"));
    lines.push(labelled("  Version: ", execution.version.as_str()));
    lines.push(counted("  Chain ID: ", execution.chain_id));
    lines.push(counted("  Executed Blocks: ", execution.head_block));
    let sync = execution.sync.describe();
    lines.push(labelled("  Sync: ", sync.as_str()));
    lines.push(String::new());
    lines.push(String::from_str("Consensus Client Running:"));
    lines.push(labelled("  Version: ", consensus.version.as_str()));
    lines.push(counted("  Head slot: ", consensus.head_slot));
    match consensus.finalized_epoch {
        Some(epoch) => {
            lines.push(counted("  Finalized epoch: ", epoch));
        },
        None => {},
    }
    lines.push(
        String::from_str(
            if consensus.is_syncing {
                "  Sync: syncing"
            } else {
                "  Sync: not syncing"
            },
        ),
    );
    let health = consensus.health.describe();
    lines.push(labelled("  Health: ", health.as_str()));
    assert(lines.deep_view() =~= report_of(execution.deep_view(), consensus.deep_view()));
    lines
}

} // verus!
