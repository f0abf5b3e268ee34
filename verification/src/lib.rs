//! Verification-and-caching protocol of a request worker.
//!
//! A worker answers reads and writes speculatively and lets nothing count
//! as final until a hash ledger or an external verifier has confirmed it.
//! It handles one inbound envelope at a time, with one of four actions:
//!
//! - `query`: the handling layer answers a read; the pairs it claims are
//!   checked against the ledger; the result body is stashed as tentative
//!   and the verifier is asked to confirm the pairs.
//! - `post`: the handling layer answers a write; the ledger records the
//!   changed row and the indexer is asked to record the mutation.
//! - `check_pair_list`: the verifier's verdict promotes the tentative
//!   result to final or rejects it.
//! - `update_index`: the indexer's acknowledgment finalizes a write.
//!
//! This crate holds the decisions of that protocol and performs no
//! operation itself. [`dispatch::start`] takes an envelope and gives a
//! [`dispatch::Step`]: the commands to perform, in order, and the stage
//! the invocation is in. While the stage waits, the last command is a
//! question, and [`dispatch::advance`] takes its answer and gives the next
//! step, until the stage is `Done` or `Failed`.
//!
//! The module [`laws`] states what holds of the protocol as a whole.

pub mod cache;
pub mod channel;
pub mod command;
pub mod dispatch;
pub mod envelope;
pub mod error;
pub mod handler;
pub mod json;
pub mod laws;
pub mod ledger;
pub mod model;
pub mod text;

pub use command::Command;
pub use dispatch::{advance, start, Reply, Stage, Step};
pub use envelope::{Action, InputOutputObject, Payload};
pub use error::WorkError;
pub use handler::{HandlerOutcome, Method};
pub use ledger::{Cell, Statement};
