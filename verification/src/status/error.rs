//! How a status call fails.

use crate::config::{ClConfig, ElConfig};
use crate::numeral::{decimal_of, push_decimal};
use crate::status::query::Query;
use vstd::prelude::*;
use vstd::string::*;

verus! {

/// The part of an answer that could not be decoded.
#[derive(Clone, Copy, Debug, PartialEq, Eq, Structural)]
pub enum Field {
    /// The body is no JSON document, or not of the expected shape.
    Body,
    ChainId,
    HeadBlock,
    StartingBlock,
    CurrentBlock,
    HighestBlock,
    HeadSlot,
    FinalizedEpoch,
}

/// Why a status call failed.
#[derive(Clone, Copy, Debug, PartialEq, Eq, Structural)]
pub enum StatusError {
    /// The node could not be reached, or its answer could not be read.
    Transport { query: Query },
    /// The node answered a query that needs success with another status.
    HttpStatus { query: Query, code: u16 },
    /// The answer arrived, and `field` of it could not be decoded.
    Decode { query: Query, field: Field },
}

impl Field {
    /// The name of the field in messages.
    pub open spec fn name_of(self) -> Seq<char> {
        match self {
            Field::Body => "body"@,
            Field::ChainId => "chain id"@,
            Field::HeadBlock => "head block"@,
            Field::StartingBlock => "startingBlock"@,
            Field::CurrentBlock => "currentBlock"@,
            Field::HighestBlock => "highestBlock"@,
            Field::HeadSlot => "head_slot"@,
            Field::FinalizedEpoch => "finalized_epoch"@,
        }
    }

    /// The name of the field in messages.
    pub fn name(&self) -> (r: &'static str)
        ensures
            r@ == self.name_of(),
    {
        match self {
            Field::Body => "body",
            Field::ChainId => "chain id",
            Field::HeadBlock => "head block",
            Field::StartingBlock => "startingBlock",
            Field::CurrentBlock => "currentBlock",
            Field::HighestBlock => "highestBlock",
            Field::HeadSlot => "head_slot",
            Field::FinalizedEpoch => "finalized_epoch",
        }
    }
}

impl StatusError {
    /// The query on which the call failed.
    pub open spec fn query_of(self) -> Query {
        match self {
            StatusError::Transport { query } => query,
            StatusError::HttpStatus { query, code } => query,
            StatusError::Decode { query, field } => query,
        }
    }

    /// The `EL` or `CL` that messages put before an endpoint.
    pub open spec fn side_of(query: Query) -> Seq<char> {
        if query.to_execution() {
            "EL"@
        } else {
            "CL"@
        }
    }

    /// The message of the failure: the node's side and the URL of the query,
    /// then what went wrong there.
    pub open spec fn described(self, el: ElConfig, cl: ClConfig) -> Seq<char> {
        let start = Self::side_of(self.query_of()) + " endpoint "@ + self.query_of().url_of(el, cl);
        match self {
            StatusError::Transport { query } => start + " gave no answer to "@
                + query.endpoint_of(),
            StatusError::HttpStatus { query, code } => start + " returned HTTP "@ + decimal_of(
                code as nat,
            ),
            StatusError::Decode { query, field } => start + " answered "@ + query.endpoint_of()
                + " with an undecodable "@ + field.name_of(),
        }
    }

    /// The query on which the call failed.
    pub fn query(&self) -> (r: Query)
        ensures
            r == self.query_of(),
    {
        match self {
            StatusError::Transport { query } => *query,
            StatusError::HttpStatus { query, code } => *query,
            StatusError::Decode { query, field } => *query,
        }
    }

    /// Writes the message of the failure for the operator.
    pub fn describe(&self, el: &ElConfig, cl: &ClConfig) -> (r: String)
        ensures
            r@ == self.described(*el, *cl),
    {
        let query = self.query();
        let mut text = String::from_str(
            if query.is_execution() {
                "EL"
            } else {
                "CL"
            },
        );
        text.append(" endpoint ");
        let url = query.url(el, cl);
        text.append(url.as_str());
        match self {
            StatusError::Transport { query } => {
                text.append(" gave no answer to ");
                text.append(query.endpoint());
            },
            StatusError::HttpStatus { query, code } => {
                text.append(" returned HTTP ");
                push_decimal(&mut text, *code as u128);
            },
            StatusError::Decode { query, field } => {
                text.append(" answered ");
                text.append(query.endpoint());
                text.append(" with an undecodable ");
                text.append(field.name());
            },
        }
        assert(text@ =~= self.described(*el, *cl));
        text
    }
}

} // verus!
