//! Supervision and status aggregation for a paired execution node and
//! consensus node.
//!
//! The crate holds the decisions: how each node is invoked, what the
//! supervisor does when the operator interrupts or a node exits, which status
//! queries are sent in which order, and how their answers become one status
//! snapshot. Processes, signals and the network belong to the caller, which
//! hands what it observed to the functions here.
//!
//! - [`config`], [`chains`], [`layout`], [`cli`]: what is run, where, and on
//!   whose command.
//! - [`runner`]: the launch of each node and the supervisor of a run.
//! - [`status`]: the status call, from its queries to its report.
//! - [`numeral`], [`json`]: the numerals and the JSON documents that the
//!   nodes write.

pub mod chains;
pub mod cli;
pub mod config;
pub mod json;
pub mod layout;
pub mod numeral;
pub mod runner;
pub mod status;
