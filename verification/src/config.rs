//! How each node is invoked and where its API is reached. A configuration is
//! made once and only read afterwards.

use crate::numeral::{decimal_of, push_decimal};
use vstd::prelude::*;
use vstd::string::*;

verus! {

/// The URL of an HTTP API that listens on `addr` and `port`.
pub open spec fn http_url_of(addr: Seq<char>, port: u16) -> Seq<char> {
    "http://"@ + addr + ":"@ + decimal_of(port as nat)
}

/// Writes the URL of an HTTP API that listens on `addr` and `port`.
pub fn http_url(addr: &str, port: u16) -> (r: String)
    ensures
        r@ == http_url_of(addr@, port),
{
    let mut url = String::from_str("http://");
    url.append(addr);
    url.append(":");
    push_decimal(&mut url, port as u128);
    url
}

/// The execution node: its binary, its chain, where it keeps its data, where
/// its public API and its authenticated API listen, and the secret that the
/// consensus node must present at the latter.
#[derive(Clone, Debug, PartialEq, Eq)]
pub struct ElConfig {
    pub name: String,
    pub bin: String,
    pub chain: String,
    pub data_dir: String,
    pub http_addr: String,
    pub http_port: u16,
    pub authrpc_addr: String,
    pub authrpc_port: u16,
    pub jwt_path: String,
}

impl ElConfig {
    /// The URL of the public JSON-RPC API.
    pub fn rpc_url(&self) -> (r: String)
        ensures
            r@ == http_url_of(self.http_addr@, self.http_port),
    {
        http_url(self.http_addr.as_str(), self.http_port)
    }

    /// The URL of the authenticated API, which the consensus node connects to.
    pub fn authrpc_url(&self) -> (r: String)
        ensures
            r@ == http_url_of(self.authrpc_addr@, self.authrpc_port),
    {
        http_url(self.authrpc_addr.as_str(), self.authrpc_port)
    }
}

/// The consensus node: its binary, its network, where it keeps its data,
/// where its REST API listens, the execution endpoint it connects to with the
/// shared secret, and where it may fetch a checkpoint to start its sync from.
#[derive(Clone, Debug, PartialEq, Eq)]
pub struct ClConfig {
    pub name: String,
    pub bin: String,
    pub data_dir: String,
    pub chain: String,
    pub http_addr: String,
    pub http_port: u16,
    pub execution_endpoint: String,
    pub execution_jwt: String,
    pub checkpoint_sync_url: Option<String>,
}

impl ClConfig {
    /// The URL of the REST API.
    pub fn http_url(&self) -> (r: String)
        ensures
            r@ == http_url_of(self.http_addr@, self.http_port),
    {
        http_url(self.http_addr.as_str(), self.http_port)
    }
}

} // verus!
