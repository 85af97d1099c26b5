//! The queries of a status call, the requests that put them on the wire, and
//! what comes back.

use crate::config::{http_url_of, ClConfig, ElConfig};
use vstd::prelude::*;
use vstd::string::*;

verus! {

/// The queries of one status call, in the order in which they are sent: four
/// to the execution node, then three to the consensus node.
#[derive(Clone, Copy, Debug, PartialEq, Eq, Structural)]
pub enum Query {
    ElClientVersion,
    ElChainId,
    ElBlockNumber,
    ElSyncing,
    ClVersion,
    ClSyncing,
    ClHealth,
}

/// What came of one query.
#[derive(Clone, Debug, PartialEq, Eq)]
pub enum Reply {
    /// No answer: the request failed on the way, or the body broke off.
    Unreachable,
    /// The node answered with this status code and body.
    Answered { code: u16, body: Vec<u8> },
}

/// Whether an HTTP status code says success: 200 to 299.
pub open spec fn is_success(code: u16) -> bool {
    200 <= code < 300
}

/// How a request is sent.
#[derive(Clone, Copy, Debug, PartialEq, Eq, Structural)]
pub enum Method {
    Get,
    Post,
}

/// One HTTP request: a `Post` carries `body` as JSON, a `Get` has no body.
#[derive(Clone, Debug, PartialEq, Eq)]
pub struct Request {
    pub method: Method,
    pub url: String,
    pub body: String,
}

/// A [`Request`] with its text as sequences of characters.
pub struct RequestView {
    pub method: Method,
    pub url: Seq<char>,
    pub body: Seq<char>,
}

impl DeepView for Request {
    type V = RequestView;

    open spec fn deep_view(&self) -> RequestView {
        RequestView { method: self.method, url: self.url@, body: self.body@ }
    }
}

/// The body of the JSON-RPC call of `method` without parameters.
pub open spec fn rpc_payload_of(method: Seq<char>) -> Seq<char> {
    "{\"jsonrpc\":\"2.0\",\"id\":1,\"method\":\""@ + method + "\",\"params\":[]}"@
}

impl Query {
    /// Whether the query goes to the execution node.
    pub open spec fn to_execution(self) -> bool {
        self is ElClientVersion || self is ElChainId || self is ElBlockNumber || self is ElSyncing
    }

    /// What the query asks for: the JSON-RPC method for the execution node,
    /// the path below the API's root for the consensus node.
    pub open spec fn endpoint_of(self) -> Seq<char> {
        match self {
            Query::ElClientVersion => "web3_clientVersion"@,
            Query::ElChainId => "eth_chainId"@,
            Query::ElBlockNumber => "eth_blockNumber"@,
            Query::ElSyncing => "eth_syncing"@,
            Query::ClVersion => "eth/v1/node/version"@,
            Query::ClSyncing => "eth/v1/node/syncing"@,
            Query::ClHealth => "eth/v1/node/health"@,
        }
    }

    /// Where the query is sent: the one JSON-RPC endpoint of the execution
    /// node, or the query's path below the REST API of the consensus node.
    pub open spec fn url_of(self, el: ElConfig, cl: ClConfig) -> Seq<char> {
        if self.to_execution() {
            http_url_of(el.http_addr@, el.http_port)
        } else {
            http_url_of(cl.http_addr@, cl.http_port) + "/"@ + self.endpoint_of()
        }
    }

    /// The request that asks the query of the node it goes to.
    pub open spec fn request_of(self, el: ElConfig, cl: ClConfig) -> RequestView {
        if self.to_execution() {
            RequestView {
                method: Method::Post,
                url: self.url_of(el, cl),
                body: rpc_payload_of(self.endpoint_of()),
            }
        } else {
            RequestView { method: Method::Get, url: self.url_of(el, cl), body: Seq::empty() }
        }
    }

    /// Whether the body of an answer to the query is looked at, given the
    /// status code of the answer: only on success, and never for the health
    /// probe.
    pub open spec fn body_matters(self, code: u16) -> bool {
        self !is ClHealth && is_success(code)
    }

    /// Whether the body of an answer with this status code is to be read.
    /// Where it is not, any body may stand in the [`Reply`].
    pub fn reads_body(&self, code: u16) -> (r: bool)
        ensures
            r == self.body_matters(code),
    {
        match self {
            Query::ClHealth => false,
            _ => 200 <= code && code < 300,
        }
    }

    /// Whether the query goes to the execution node.
    pub fn is_execution(&self) -> (r: bool)
        ensures
            r == self.to_execution(),
    {
        match self {
            Query::ElClientVersion | Query::ElChainId | Query::ElBlockNumber | Query::ElSyncing => {
                true
            },
            _ => false,
        }
    }

    /// The JSON-RPC method or the REST path of the query.
    pub fn endpoint(&self) -> (r: &'static str)
        ensures
            r@ == self.endpoint_of(),
    {
        match self {
            Query::ElClientVersion => "web3_clientVersion",
            Query::ElChainId => "eth_chainId",
            Query::ElBlockNumber => "eth_blockNumber",
            Query::ElSyncing => "eth_syncing",
            Query::ClVersion => "eth/v1/node/version",
            Query::ClSyncing => "eth/v1/node/syncing",
            Query::ClHealth => "eth/v1/node/health",
        }
    }

    /// The URL that the query is sent to.
    pub fn url(&self, el: &ElConfig, cl: &ClConfig) -> (r: String)
        ensures
            r@ == self.url_of(*el, *cl),
    {
        if self.is_execution() {
            el.rpc_url()
        } else {
            let mut url = cl.http_url();
            url.append("/");
            url.append(self.endpoint());
            url
        }
    }

    /// The request that asks the query.
    pub fn request(&self, el: &ElConfig, cl: &ClConfig) -> (r: Request)
        ensures
            r.deep_view() == self.request_of(*el, *cl),
    {
        let url = self.url(el, cl);
        if self.is_execution() {
            let mut body = String::from_str("{\"jsonrpc\":\"2.0\",\"id\":1,\"method\":\"");
            body.append(self.endpoint());
            body.append("\",\"params\":[]}");
            Request { method: Method::Post, url, body }
        } else {
            Request { method: Method::Get, url, body: String::new() }
        }
    }
}

} // verus!
