//! What the worker hands to the request-handling layer and what it reads
//! from the answer.

use crate::model::{Pairs};
use vstd::prelude::*;

verus! {

/// The kind of request put to the handling layer.
#[derive(Clone, Copy, Debug, PartialEq, Eq, Structural)]
pub enum Method {
    /// A read.
    Get,
    /// A write.
    Post,
}

/// What the handling layer answered.
#[derive(Clone, Debug, PartialEq, Eq)]
pub struct HandlerOutcome {
    /// The model the request touched; it names the hash table.
    pub model_name: String,
    /// The kind of mutation a write made: `new`, `update`, `delete`, or
    /// anything else for none.
    pub action: String,
    /// The `(id, hash)` pairs of the records the request touched.
    pub pair_list: Option<Vec<(String, String)>>,
    /// The body to hand to the reader once the request is confirmed.
    pub result_body: Option<String>,
}

/// What an outcome holds, as mathematical values.
pub ghost struct HandlerOutcomeView {
    pub model_name: Seq<char>,
    pub action: Seq<char>,
    pub pair_list: Option<Pairs>,
    pub result_body: Option<Seq<char>>,
}

impl View for HandlerOutcome {
    type V = HandlerOutcomeView;

    open spec fn view(&self) -> HandlerOutcomeView {
        HandlerOutcomeView {
            model_name: self.model_name@,
            action: self.action@,
            pair_list: self.pair_list.deep_view(),
            result_body: self.result_body.deep_view(),
        }
    }
}

} // verus!
