//! The status aggregator: the queries sent to the two nodes, and what their
//! answers say.

pub mod decode;
pub mod error;
pub mod logic;
pub mod query;
pub mod report;
pub mod types;

pub use self::logic::{cl_status, el_status, parse_hex_u64, status};
pub use self::report::report;
