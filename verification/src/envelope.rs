//! The message envelope, its payload and the closed set of actions.

use crate::text::same_text;
use vstd::prelude::*;

verus! {

/// One of the four actions an envelope can ask for.
#[derive(Clone, Copy, Debug, PartialEq, Eq, Structural)]
pub enum Action {
    /// A read, answered speculatively and confirmed by the verifier later.
    Query,
    /// A single-row mutation, recorded in the ledger and indexed later.
    Post,
    /// The indexer's acknowledgment of a mutation.
    UpdateIndex,
    /// The verifier's verdict on a pair list.
    CheckPairList,
}

impl Action {
    /// The tag that names this action on the wire.
    pub open spec fn tag(self) -> Seq<char> {
        match self {
            Action::Query => "query"@,
            Action::Post => "post"@,
            Action::UpdateIndex => "update_index"@,
            Action::CheckPairList => "check_pair_list"@,
        }
    }

    /// The action a wire tag names, if it names one.
    pub open spec fn named_by(tag: Seq<char>) -> Option<Action> {
        if tag == "query"@ {
            Some(Action::Query)
        } else if tag == "post"@ {
            Some(Action::Post)
        } else if tag == "update_index"@ {
            Some(Action::UpdateIndex)
        } else if tag == "check_pair_list"@ {
            Some(Action::CheckPairList)
        } else {
            None
        }
    }

    /// The four tags are pairwise distinct, so each action is named by its
    /// own tag and by no other.
    pub proof fn lemma_tag_names_action(self)
        ensures
            Action::named_by(self.tag()) == Some(self),
    {
        reveal_strlit("query");
        reveal_strlit("post");
        reveal_strlit("update_index");
        reveal_strlit("check_pair_list");
        assert("query"@.len() == 5);
        assert("post"@.len() == 4);
        assert("update_index"@.len() == 12);
        assert("check_pair_list"@.len() == 15);
    }

    /// Reads a wire tag. Exactly the four known tags are recognized.
    pub fn recognize(tag: &str) -> (action: Option<Action>)
        ensures
            action == Action::named_by(tag@),
    {
        if same_text(tag, "query") {
            Some(Action::Query)
        } else if same_text(tag, "post") {
            Some(Action::Post)
        } else if same_text(tag, "update_index") {
            Some(Action::UpdateIndex)
        } else if same_text(tag, "check_pair_list") {
            Some(Action::CheckPairList)
        } else {
            None
        }
    }

    /// The wire tag of this action.
    pub fn as_str(self) -> (tag: &'static str)
        ensures
            tag@ == self.tag(),
    {
        match self {
            Action::Query => "query",
            Action::Post => "post",
            Action::UpdateIndex => "update_index",
            Action::CheckPairList => "check_pair_list",
        }
    }
}

/// The unit of message transport, inbound and outbound.
#[derive(Clone, Debug, PartialEq, Eq)]
pub struct InputOutputObject {
    /// The request path for `query` and `post`, the model name in callbacks.
    pub model: String,
    /// The action tag; it alone decides how `data` is read.
    pub action: String,
    /// The payload, opaque until the action is known.
    pub data: Vec<u8>,
    /// An advisory timestamp.
    pub time: u64,
}

/// What an envelope holds, as mathematical values.
pub ghost struct InputOutputObjectView {
    pub model: Seq<char>,
    pub action: Seq<char>,
    pub data: Seq<u8>,
    pub time: u64,
}

impl View for InputOutputObject {
    type V = InputOutputObjectView;

    open spec fn view(&self) -> InputOutputObjectView {
        InputOutputObjectView {
            model: self.model@,
            action: self.action@,
            data: self.data@,
            time: self.time,
        }
    }
}

/// The decoded `data` of a `query`, `post` or `check_pair_list` envelope.
#[derive(Clone, Debug, PartialEq, Eq)]
pub struct Payload {
    /// The correlation identifier of the request.
    pub reqid: String,
    /// The request body, or the verifier's verdict in a callback.
    pub reqdata: Option<String>,
}

/// What a payload holds, as mathematical values.
pub ghost struct PayloadView {
    pub reqid: Seq<char>,
    pub reqdata: Option<Seq<char>>,
}

impl View for Payload {
    type V = PayloadView;

    open spec fn view(&self) -> PayloadView {
        PayloadView {
            reqid: self.reqid@,
            reqdata: match self.reqdata {
                Some(text) => Some(text@),
                None => None,
            },
        }
    }
}

} // verus!
