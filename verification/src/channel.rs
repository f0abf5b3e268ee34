//! The correlation messages sent to the external verifier and indexer.
//!
//! A message is an envelope whose `data` holds a payload of the request
//! identifier and the pair list. The verifier's or indexer's reply comes
//! back later as a callback envelope with the action named here.

use crate::envelope::Action;
use crate::json::{
    byte_array, json_string, pair_array, push_byte_array, push_pair_array, quote, quote_pairs,
    quoted_pairs,
};
use crate::model::{Pairs};
use vstd::prelude::*;
use vstd::string::{StrSliceExecFns, StringExecFns};
use vstd::utf8::encode_utf8;

verus! {

/// The one channel that carries all correlation traffic.
pub const CHANNEL_SPIN2PROXY: &'static str = "spin2proxy";

/// The payload object. `reqid` and the halves of `pairs` are JSON string
/// literals, encoded already.
pub open spec fn payload_text(reqid: Seq<char>, pairs: Pairs) -> Seq<char> {
    "{\"reqdata\":"@ + pair_array(pairs) + ",\"reqid\":"@ + reqid + "}"@
}

/// The envelope object. `action` and `model` are JSON string literals,
/// encoded already; `data` is written as an array of numbers.
pub open spec fn envelope_text(action: Seq<char>, data: Seq<u8>, model: Seq<char>) -> Seq<char> {
    "{\"action\":"@ + action + ",\"data\":"@ + byte_array(data) + ",\"model\":"@ + model
        + ",\"time\":0}"@
}

/// The bytes of the message that asks for `action` on the pairs of request
/// `reqid` of `model`.
pub open spec fn correlation_message(
    model: Seq<char>,
    action: Action,
    reqid: Seq<char>,
    pairs: Pairs,
) -> Seq<u8> {
    encode_utf8(
        envelope_text(
            json_string(action.tag()),
            encode_utf8(payload_text(json_string(reqid), quoted_pairs(pairs))),
            json_string(model),
        ),
    )
}

/// Writes the payload object from string literals that are encoded already.
pub fn write_payload(reqid: &str, pairs: &Vec<(String, String)>) -> (text: String)
    ensures
        text@ == payload_text(reqid@, pairs.deep_view()),
{
    let mut text = String::new();
    text.append("{\"reqdata\":");
    push_pair_array(&mut text, pairs);
    text.append(",\"reqid\":");
    text.append(reqid);
    text.append("}");
    assert(text@ =~= payload_text(reqid@, pairs.deep_view()));
    text
}

/// Writes the envelope object from string literals that are encoded
/// already and the bytes of the payload.
pub fn write_envelope(action: &str, data: &[u8], model: &str) -> (text: String)
    ensures
        text@ == envelope_text(action@, data@, model@),
{
    let mut text = String::new();
    text.append("{\"action\":");
    text.append(action);
    text.append(",\"data\":");
    push_byte_array(&mut text, data);
    text.append(",\"model\":");
    text.append(model);
    text.append(",\"time\":0}");
    assert(text@ =~= envelope_text(action@, data@, model@));
    text
}

/// Composes the message that asks for `action` on the pairs of a request.
pub fn compose_message(
    model: &str,
    action: Action,
    reqid: &str,
    pairs: &Vec<(String, String)>,
) -> (message: Vec<u8>)
    ensures
        message@ == correlation_message(model@, action, reqid@, pairs.deep_view()),
{
    let reqid_literal = quote(reqid);
    let pair_literals = quote_pairs(pairs);
    let payload = write_payload(reqid_literal.as_str(), &pair_literals);
    let data = payload.as_str().as_bytes_vec();
    let action_literal = quote(action.as_str());
    let model_literal = quote(model);
    let envelope = write_envelope(action_literal.as_str(), data.as_slice(), model_literal.as_str());
    envelope.as_str().as_bytes_vec()
}

/// The message published after a query: it asks the verifier to confirm
/// the pair list, and the verdict returns as `check_pair_list`.
pub fn tail_query(reqid: &str, model: &str, pairs: &Vec<(String, String)>) -> (message: Vec<u8>)
    ensures
        message@ == correlation_message(model@, Action::CheckPairList, reqid@, pairs.deep_view()),
{
    compose_message(model, Action::CheckPairList, reqid, pairs)
}

/// The message published after a post: it asks the indexer to record the
/// mutation, and the acknowledgment returns as `update_index`.
pub fn tail_post(reqid: &str, model: &str, pairs: &Vec<(String, String)>) -> (message: Vec<u8>)
    ensures
        message@ == correlation_message(model@, Action::UpdateIndex, reqid@, pairs.deep_view()),
{
    compose_message(model, Action::UpdateIndex, reqid, pairs)
}

} // verus!
