//! The correlation cache: three slots per request identifier.
//!
//! The tentative slot holds a result that awaits the verifier, the status
//! slot says whether the request was confirmed, and the finalized slot
//! holds what a reader may take as authoritative. This module names the
//! slots, words the writes of each transition and models their effect.

use crate::command::{Command, CommandView};
use crate::error::WorkError;
use crate::text::{field_end, find_field_end, lemma_field_end, utf8_text};
use crate::model::{Slots};
use vstd::prelude::*;
use vstd::string::{StrSliceExecFns, StringExecFns, StringSliceAdditionalSpecFns};
use vstd::utf8::{decode_utf8, encode_utf8, encode_utf8_decode_utf8, valid_utf8};

verus! {

/// What the finalized slot holds after the verifier rejected a request.
pub const REJECTION: &'static str = "check of pair list wrong!";

/// The key of the tentative slot of a request.
pub open spec fn tentative_key(reqid: Seq<char>) -> Seq<char> {
    "tmp:cache:"@ + reqid
}

/// The key of the status slot of a request.
pub open spec fn status_key(reqid: Seq<char>) -> Seq<char> {
    "cache:status:"@ + reqid
}

/// The key of the finalized slot of a request.
pub open spec fn finalized_key(reqid: Seq<char>) -> Seq<char> {
    "cache:"@ + reqid
}

/// The three slots of one request lie under three different keys.
pub proof fn lemma_slots_distinct(reqid: Seq<char>)
    ensures
        tentative_key(reqid) != status_key(reqid),
        tentative_key(reqid) != finalized_key(reqid),
        status_key(reqid) != finalized_key(reqid),
{
    reveal_strlit("tmp:cache:");
    reveal_strlit("cache:status:");
    reveal_strlit("cache:");
    assert(tentative_key(reqid)[0] == 't');
    assert(status_key(reqid)[0] == 'c');
    assert(finalized_key(reqid)[0] == 'c');
    assert(status_key(reqid).len() == reqid.len() + 13);
    assert(finalized_key(reqid).len() == reqid.len() + 6);
}

/// Names the tentative slot of a request.
pub fn make_tentative_key(reqid: &str) -> (key: String)
    ensures
        key@ == tentative_key(reqid@),
{
    let mut key = String::new();
    key.append("tmp:cache:");
    key.append(reqid);
    assert(key@ =~= tentative_key(reqid@));
    key
}

/// Names the status slot of a request.
pub fn make_status_key(reqid: &str) -> (key: String)
    ensures
        key@ == status_key(reqid@),
{
    let mut key = String::new();
    key.append("cache:status:");
    key.append(reqid);
    assert(key@ =~= status_key(reqid@));
    key
}

/// Names the finalized slot of a request.
pub fn make_finalized_key(reqid: &str) -> (key: String)
    ensures
        key@ == finalized_key(reqid@),
{
    let mut key = String::new();
    key.append("cache:");
    key.append(reqid);
    assert(key@ =~= finalized_key(reqid@));
    key
}

/// The cache after one command. Only writes and deletions change it.
pub open spec fn apply(cache: Slots, command: CommandView) -> Slots {
    match command {
        CommandView::CacheSet { key, value } => cache.insert(key, value),
        CommandView::CacheDel { key } => cache.remove(key),
        _ => cache,
    }
}

/// The cache after a sequence of commands, performed in order.
pub open spec fn apply_all(cache: Slots, commands: Seq<CommandView>) -> Slots
    decreases commands.len(),
{
    if commands.len() == 0 {
        cache
    } else {
        apply(apply_all(cache, commands.drop_last()), commands.last())
    }
}

/// What the cache tells of a slot: its value, or `None` if it holds none.
pub open spec fn slot(cache: Slots, key: Seq<char>) -> Option<Seq<u8>> {
    if cache.contains_key(key) {
        Some(cache[key])
    } else {
        None
    }
}

/// Performing a sequence of commands and then one more is performing the
/// longer sequence.
pub proof fn lemma_apply_push(cache: Slots, commands: Seq<CommandView>, last: CommandView)
    ensures
        apply_all(cache, commands.push(last)) == apply(apply_all(cache, commands), last),
{
    assert(commands.push(last).drop_last() =~= commands);
}

/// The cache after one command.
pub proof fn lemma_apply_one(cache: Slots, a: CommandView)
    ensures
        apply_all(cache, seq![a]) == apply(cache, a),
{
    lemma_apply_push(cache, Seq::empty(), a);
    assert(seq![a] =~= Seq::<CommandView>::empty().push(a));
}

/// The cache after two commands.
pub proof fn lemma_apply_two(cache: Slots, a: CommandView, b: CommandView)
    ensures
        apply_all(cache, seq![a, b]) == apply(apply(cache, a), b),
{
    lemma_apply_one(cache, a);
    lemma_apply_push(cache, seq![a], b);
    assert(seq![a, b] =~= seq![a].push(b));
}

/// The cache after three commands.
pub proof fn lemma_apply_three(cache: Slots, a: CommandView, b: CommandView, c: CommandView)
    ensures
        apply_all(cache, seq![a, b, c]) == apply(apply(apply(cache, a), b), c),
{
    lemma_apply_two(cache, a, b);
    lemma_apply_push(cache, seq![a, b], c);
    assert(seq![a, b, c] =~= seq![a, b].push(c));
}

/// The fields of an index acknowledgment `reqid:id:hash`: the first three
/// fields that colons separate. Further fields are ignored; fewer than
/// three are malformed.
pub open spec fn index_fields(text: Seq<char>) -> Option<(Seq<char>, Seq<char>, Seq<char>)> {
    let first = field_end(text, ':', 0);
    let second = field_end(text, ':', first + 1);
    let third = field_end(text, ':', second + 1);
    if first < text.len() && second < text.len() {
        Some(
            (
                text.subrange(0, first),
                text.subrange(first + 1, second),
                text.subrange(second + 1, third),
            ),
        )
    } else {
        None
    }
}

/// The fields of the acknowledgment that the bytes encode, if they are
/// well-formed UTF-8 with at least three fields.
pub open spec fn index_triple(data: Seq<u8>) -> Option<(Seq<char>, Seq<char>, Seq<char>)> {
    if valid_utf8(data) {
        index_fields(decode_utf8(data))
    } else {
        None
    }
}

/// A text holds no colon.
pub open spec fn colon_free(text: Seq<char>) -> bool {
    forall|i: int| 0 <= i < text.len() ==> #[trigger] text[i] != ':'
}

/// Three colon-free fields, joined by colons, are read back as they were
/// written.
pub proof fn lemma_index_fields_of_joined(reqid: Seq<char>, id: Seq<char>, hash: Seq<char>)
    requires
        colon_free(reqid),
        colon_free(id),
        colon_free(hash),
    ensures
        index_fields(reqid + ":"@ + id + ":"@ + hash) == Some((reqid, id, hash)),
{
    reveal_strlit(":");
    let text = reqid + ":"@ + id + ":"@ + hash;
    let first = reqid.len() as int;
    let second = first + 1 + id.len();
    let third = text.len() as int;
    assert(third == second + 1 + hash.len());
    assert(text[first] == ':');
    assert(text[second] == ':');
    assert forall|k: int| 0 <= k < first implies text[k] != ':' by {
        assert(text[k] == reqid[k]);
    }
    assert forall|k: int| first + 1 <= k < second implies text[k] != ':' by {
        assert(text[k] == id[k - first - 1]);
    }
    assert forall|k: int| second + 1 <= k < third implies text[k] != ':' by {
        assert(text[k] == hash[k - second - 1]);
    }
    lemma_field_end(text, ':', 0, first);
    lemma_field_end(text, ':', first + 1, second);
    lemma_field_end(text, ':', second + 1, third);
    assert(text.subrange(0, first) =~= reqid);
    assert(text.subrange(first + 1, second) =~= id);
    assert(text.subrange(second + 1, third) =~= hash);
}

/// Reads an index acknowledgment. Malformed bytes give `DecodeError`.
pub fn parse_index(data: &[u8]) -> (fields: Result<(String, String, String), WorkError>)
    ensures
        match index_triple(data@) {
            Some(triple) => fields matches Ok(found) && (found.0@, found.1@, found.2@) == triple,
            None => fields == Err::<(String, String, String), WorkError>(WorkError::DecodeError),
        },
{
    let text = match utf8_text(data) {
        Some(text) => text,
        None => {
            return Err(WorkError::DecodeError);
        },
    };
    proof {
        encode_utf8_decode_utf8(text@);
    }
    let total = text.unicode_len();
    let first = find_field_end(text, ':', 0);
    if first >= total {
        return Err(WorkError::DecodeError);
    }
    let second = find_field_end(text, ':', first + 1);
    if second >= total {
        return Err(WorkError::DecodeError);
    }
    let third = find_field_end(text, ':', second + 1);
    let reqid = text.substring_char(0, first).to_owned();
    let id = text.substring_char(first + 1, second).to_owned();
    let hash = text.substring_char(second + 1, third).to_owned();
    Ok((reqid, id, hash))
}

/// The write that stashes the result body of a verified query.
pub open spec fn stashed(reqid: Seq<char>, body: Seq<char>) -> CommandView {
    CommandView::CacheSet { key: tentative_key(reqid), value: encode_utf8(body) }
}

/// The writes that record the indexer's acknowledgment: the status first,
/// then the finalized text `id:hash`.
pub open spec fn acknowledged(reqid: Seq<char>, id: Seq<char>, hash: Seq<char>) -> Seq<CommandView> {
    seq![
        CommandView::CacheSet { key: status_key(reqid), value: encode_utf8("true"@) },
        CommandView::CacheSet { key: finalized_key(reqid), value: encode_utf8(id + ":"@ + hash) },
    ]
}

/// The writes that confirm a request: the status first, then the tentative
/// value, if there was one, into the finalized slot, then the deletion of
/// the tentative slot.
pub open spec fn promoted(reqid: Seq<char>, tentative: Option<Seq<u8>>) -> Seq<CommandView> {
    match tentative {
        Some(value) => seq![
            CommandView::CacheSet { key: status_key(reqid), value: encode_utf8("true"@) },
            CommandView::CacheSet { key: finalized_key(reqid), value: value },
            CommandView::CacheDel { key: tentative_key(reqid) },
        ],
        None => seq![
            CommandView::CacheSet { key: status_key(reqid), value: encode_utf8("true"@) },
            CommandView::CacheDel { key: tentative_key(reqid) },
        ],
    }
}

/// The writes that reject a request: the status first, then the fixed
/// rejection text into the finalized slot, then the deletion of the
/// tentative slot.
pub open spec fn rejected(reqid: Seq<char>) -> Seq<CommandView> {
    seq![
        CommandView::CacheSet { key: status_key(reqid), value: encode_utf8("false"@) },
        CommandView::CacheSet { key: finalized_key(reqid), value: encode_utf8(REJECTION@) },
        CommandView::CacheDel { key: tentative_key(reqid) },
    ]
}

/// Words the write that stashes the result body of a verified query.
pub fn stash(reqid: &str, body: &str) -> (command: Command)
    ensures
        command@ == stashed(reqid@, body@),
{
    Command::CacheSet { key: make_tentative_key(reqid), value: body.as_bytes_vec() }
}

/// Words the writes that record the indexer's acknowledgment.
pub fn acknowledge(reqid: &str, id: &str, hash: &str) -> (commands: Vec<Command>)
    ensures
        commands.deep_view() == acknowledged(reqid@, id@, hash@),
{
    let mut composed = String::new();
    composed.append(id);
    composed.append(":");
    composed.append(hash);
    assert(composed@ =~= id@ + ":"@ + hash@);
    let commands = vec![
        Command::CacheSet { key: make_status_key(reqid), value: "true".as_bytes_vec() },
        Command::CacheSet { key: make_finalized_key(reqid), value: composed.as_str().as_bytes_vec() },
    ];
    assert(commands.deep_view() =~= acknowledged(reqid@, id@, hash@));
    commands
}

/// Words the writes that confirm a request whose tentative slot was read.
pub fn promote(reqid: &str, tentative: Option<Vec<u8>>) -> (commands: Vec<Command>)
    ensures
        commands.deep_view() == promoted(reqid@, tentative.deep_view()),
{
    let ghost want = promoted(reqid@, tentative.deep_view());
    let mut commands: Vec<Command> = Vec::new();
    commands.push(Command::CacheSet { key: make_status_key(reqid), value: "true".as_bytes_vec() });
    match tentative {
        Some(value) => {
            assert(tentative.deep_view() == Some(value@));
            commands.push(Command::CacheSet { key: make_finalized_key(reqid), value });
        },
        None => {},
    }
    commands.push(Command::CacheDel { key: make_tentative_key(reqid) });
    assert(commands.deep_view() =~= want);
    commands
}

/// Words the writes that reject a request.
pub fn reject(reqid: &str) -> (commands: Vec<Command>)
    ensures
        commands.deep_view() == rejected(reqid@),
{
    let commands = vec![
        Command::CacheSet { key: make_status_key(reqid), value: "false".as_bytes_vec() },
        Command::CacheSet { key: make_finalized_key(reqid), value: REJECTION.as_bytes_vec() },
        Command::CacheDel { key: make_tentative_key(reqid) },
    ];
    assert(commands.deep_view() =~= rejected(reqid@));
    commands
}

} // verus!
