//! The configurations of the two nodes for the chains that are known.

use crate::config::{http_url_of, ClConfig, ElConfig};
use crate::layout::{bin_dir, bin_dir_of, data_dir, data_dir_of, join, join_of, secret_dir,
    secret_dir_of};
use vstd::prelude::*;
use vstd::string::*;

verus! {

/// Whether the two configurations belong together: both name the same
/// secret, and the consensus node connects to the authenticated API of the
/// execution node.
pub open spec fn paired(el: ElConfig, cl: ClConfig) -> bool {
    &&& cl.execution_jwt@ == el.jwt_path@
    &&& cl.execution_endpoint@ == http_url_of(el.authrpc_addr@, el.authrpc_port)
}

/// Whether `el` is the execution node for `chain` with its files below
/// `home`: `reth`, listening on the local host with its public API on port
/// 8545 and its authenticated API on port 8551.
pub open spec fn is_execution_for(el: ElConfig, home: Seq<char>, chain: Seq<char>) -> bool {
    &&& el.name@ == "reth"@
    &&& el.bin@ == join_of(bin_dir_of(home), "reth"@)
    &&& el.chain@ == chain
    &&& el.data_dir@ == join_of(data_dir_of(home), "reth-"@ + chain)
    &&& el.http_addr@ == "127.0.0.1"@
    &&& el.http_port == 8545
    &&& el.authrpc_addr@ == "127.0.0.1"@
    &&& el.authrpc_port == 8551
    &&& el.jwt_path@ == join_of(secret_dir_of(home), "jwt.hex"@)
}

/// Whether `cl` is the consensus node for `chain` with its files below
/// `home`: `lighthouse`, listening on the local host on port 5052,
/// connected to the execution node of [`is_execution_for`], and starting its
/// sync from `checkpoint`.
pub open spec fn is_consensus_for(
    cl: ClConfig,
    home: Seq<char>,
    chain: Seq<char>,
    checkpoint: Seq<char>,
) -> bool {
    &&& cl.name@ == "lighthouse"@
    &&& cl.bin@ == join_of(bin_dir_of(home), "lighthouse"@)
    &&& cl.data_dir@ == join_of(data_dir_of(home), "lighthouse-"@ + chain)
    &&& cl.chain@ == chain
    &&& cl.http_addr@ == "127.0.0.1"@
    &&& cl.http_port == 5052
    &&& cl.execution_endpoint@ == http_url_of("127.0.0.1"@, 8551)
    &&& cl.execution_jwt@ == join_of(secret_dir_of(home), "jwt.hex"@)
    &&& cl.checkpoint_sync_url matches Some(url) && url@ == checkpoint
}

/// The pair of configurations for `chain`.
fn chain_config(home: &str, chain: &str, checkpoint: &str) -> (r: (ElConfig, ClConfig))
    ensures
        is_execution_for(r.0, home@, chain@),
        is_consensus_for(r.1, home@, chain@, checkpoint@),
        paired(r.0, r.1),
{
    let bin = bin_dir(home);
    let data = data_dir(home);
    let secrets = secret_dir(home);
    let jwt = join(secrets.as_str(), "jwt.hex");
    let mut el_data = String::from_str("reth-");
    el_data.append(chain);
    let mut cl_data = String::from_str("lighthouse-");
    cl_data.append(chain);

    let el = ElConfig {
        name: String::from_str("reth"),
        bin: join(bin.as_str(), "reth"),
        data_dir: join(data.as_str(), el_data.as_str()),
        chain: String::from_str(chain),
        http_addr: String::from_str("127.0.0.1"),
        http_port: 8545,
        authrpc_addr: String::from_str("127.0.0.1"),
        authrpc_port: 8551,
        jwt_path: jwt.clone(),
    };
    let cl = ClConfig {
        name: String::from_str("lighthouse"),
        bin: join(bin.as_str(), "lighthouse"),
        data_dir: join(data.as_str(), cl_data.as_str()),
        chain: String::from_str(chain),
        http_addr: String::from_str("127.0.0.1"),
        http_port: 5052,
        execution_endpoint: el.authrpc_url(),
        execution_jwt: jwt,
        checkpoint_sync_url: Some(String::from_str(checkpoint)),
    };
    (el, cl)
}

/// The two nodes for the Hoodi test network, with their files below `home`.
pub fn _hoodi_config(home: &str) -> (r: (ElConfig, ClConfig))
    ensures
        is_execution_for(r.0, home@, "hoodi"@),
        is_consensus_for(r.1, home@, "hoodi"@, "https://checkpoint-sync.hoodi.ethpandaops.io"@),
        paired(r.0, r.1),
{
    chain_config(home, "hoodi", "https://checkpoint-sync.hoodi.ethpandaops.io")
}

/// The two nodes for the main network, with their files below `home`.
pub fn mainnet_config(home: &str) -> (r: (ElConfig, ClConfig))
    ensures
        is_execution_for(r.0, home@, "mainnet"@),
        is_consensus_for(r.1, home@, "mainnet"@, "https://mainnet.checkpoint.sigp.io"@),
        paired(r.0, r.1),
{
    chain_config(home, "mainnet", "https://mainnet.checkpoint.sigp.io")
}

} // verus!
