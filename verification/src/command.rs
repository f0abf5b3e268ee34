//! The operations the worker asks its caller to perform.

use crate::handler::Method;
use crate::ledger::{Statement, StatementView};
use vstd::prelude::*;

verus! {

/// One operation for the caller to perform. The first five are questions:
/// the caller answers each with the matching reply. The others are
/// performed and forgotten; their failures are not reported back.
#[derive(Clone, Debug, PartialEq, Eq)]
pub enum Command {
    /// Decode these bytes as a payload.
    DecodePayload { data: Vec<u8> },
    /// Put this request to the handling layer.
    Handle { method: Method, path: String, body: Option<String> },
    /// Run this read against the ledger and hand back the rows.
    LedgerQuery { statement: Statement },
    /// Read the cache slot under this key.
    CacheGet { key: String },
    /// Run this change against the ledger.
    LedgerExecute { statement: Statement },
    /// Write this value into the cache slot under this key.
    CacheSet { key: String, value: Vec<u8> },
    /// Delete the cache slot under this key.
    CacheDel { key: String },
    /// Publish this message on this channel.
    Publish { channel: String, message: Vec<u8> },
}

/// What a command holds, as mathematical values.
pub ghost enum CommandView {
    DecodePayload { data: Seq<u8> },
    Handle { method: Method, path: Seq<char>, body: Option<Seq<char>> },
    LedgerQuery { statement: StatementView },
    CacheGet { key: Seq<char> },
    LedgerExecute { statement: StatementView },
    CacheSet { key: Seq<char>, value: Seq<u8> },
    CacheDel { key: Seq<char> },
    Publish { channel: Seq<char>, message: Seq<u8> },
}

impl View for Command {
    type V = CommandView;

    open spec fn view(&self) -> CommandView {
        match self {
            Command::DecodePayload { data } => CommandView::DecodePayload { data: data@ },
            Command::Handle { method, path, body } => CommandView::Handle {
                method: *method,
                path: path@,
                body: body.deep_view(),
            },
            Command::LedgerQuery { statement } => CommandView::LedgerQuery { statement: statement@ },
            Command::CacheGet { key } => CommandView::CacheGet { key: key@ },
            Command::LedgerExecute { statement } => CommandView::LedgerExecute {
                statement: statement@,
            },
            Command::CacheSet { key, value } => CommandView::CacheSet { key: key@, value: value@ },
            Command::CacheDel { key } => CommandView::CacheDel { key: key@ },
            Command::Publish { channel, message } => CommandView::Publish {
                channel: channel@,
                message: message@,
            },
        }
    }
}

impl DeepView for Command {
    type V = CommandView;

    open spec fn deep_view(&self) -> CommandView {
        self@
    }
}

impl CommandView {
    /// Whether the caller owes a reply to this command.
    pub open spec fn is_question(self) -> bool {
        self is DecodePayload || self is Handle || self is LedgerQuery || self is CacheGet
    }
}

} // verus!
