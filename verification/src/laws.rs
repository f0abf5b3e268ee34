//! What holds of the protocol as a whole, proved over the model of the
//! cache and of the ledger.

use crate::cache::{
    acknowledged, apply_all, colon_free, finalized_key, index_triple, lemma_apply_one,
    lemma_apply_three, lemma_apply_two, lemma_index_fields_of_joined, lemma_slots_distinct, promoted,
    rejected, slot, stashed, status_key, tentative_key, REJECTION,
};
use crate::command::CommandView;
use crate::dispatch::{
    begin, body_of, failed, on_payload, on_post_handled, on_query_handled, on_rows, published, resume,
    settled_query, ReplyView, StageView, StepView,
};
use crate::envelope::{Action, InputOutputObjectView, PayloadView};
use crate::error::WorkError;
use crate::handler::HandlerOutcomeView;
use crate::ledger::{
    all_match, any_mismatch, cells_of, ledger_map, lemma_cells_are_read,
    lemma_verdict_passes_iff_all_match, pair_matches, read_of, reflects, verdict, Mutation,
};
use crate::model::{Pair, Pairs, Slots, Table};
use vstd::prelude::*;
use vstd::utf8::{decode_utf8, encode_utf8, encode_utf8_decode_utf8, encode_utf8_valid_utf8};

verus! {

/// A query from the handler's answer to its end, with the read of the
/// ledger answered by `rows`: the commands of its steps in order, and
/// the stage it ends in.
pub open spec fn query_run(
    reqid: Seq<char>,
    outcome: HandlerOutcomeView,
    rows: Pairs,
) -> StepView {
    let asked = on_query_handled(reqid, Some(outcome));
    if asked.stage.awaits() {
        let last = resume(asked.stage, ReplyView::LedgerRows(Some(cells_of(rows))));
        StepView { stage: last.stage, commands: asked.commands + last.commands }
    } else {
        asked
    }
}

/// A query whose every pair matches the ledger is settled, and the
/// tentative slot of its request then holds the handler's result body
/// byte for byte. The body is stashed before the verifier is asked, and
/// the verifier is asked about the pairs as the handler gave them.
pub proof fn law_confirmed_query_is_stashed(
    cache: Slots,
    reqid: Seq<char>,
    outcome: HandlerOutcomeView,
    pairs: Pairs,
    body: Seq<char>,
    rows: Pairs,
)
    requires
        outcome.pair_list == Some(pairs),
        body == body_of(outcome),
        all_match(pairs, ledger_map(rows)),
    ensures
        ({
            let run = query_run(reqid, outcome, rows);
            let after = apply_all(cache, run.commands);
            let stash = stashed(reqid, body);
            let publish = published(outcome.model_name, Action::CheckPairList, reqid, pairs);
            &&& run.stage == StageView::Done
            &&& exists|i: int, j: int|
                0 <= i < j < run.commands.len() && run.commands[i] == stash && run.commands[j]
                    == publish
            &&& slot(after, tentative_key(reqid)) == Some(encode_utf8(body))
            &&& decode_utf8(after[tentative_key(reqid)]) == body
            &&& forall|key: Seq<char>|
                key != tentative_key(reqid) ==> slot(after, key) == slot(cache, key)
        }),
{
    let run = query_run(reqid, outcome, rows);
    let stash = stashed(reqid, body);
    let publish = published(outcome.model_name, Action::CheckPairList, reqid, pairs);
    lemma_cells_are_read(rows);
    lemma_verdict_passes_iff_all_match(pairs, ledger_map(rows));
    encode_utf8_decode_utf8(body);
    if pairs.len() == 0 {
        assert(run.commands == seq![stash, publish]);
        assert(run.commands[0] == stash && run.commands[1] == publish);
        lemma_apply_two(cache, stash, publish);
    } else {
        let read = CommandView::LedgerQuery { statement: read_of(outcome.model_name, pairs) };
        assert(run.commands =~= seq![read, stash, publish]);
        assert(run.commands[1] == stash && run.commands[2] == publish);
        lemma_apply_three(cache, read, stash, publish);
    }
}

/// A query with at least one mismatching hash fails with `HashMismatch`,
/// wherever the mismatch stands in the list, and writes nothing: the
/// cache stays as it was, and nothing is published.
pub proof fn law_mismatch_fails_closed(
    cache: Slots,
    reqid: Seq<char>,
    outcome: HandlerOutcomeView,
    pairs: Pairs,
    rows: Pairs,
)
    requires
        outcome.pair_list == Some(pairs),
        any_mismatch(pairs, ledger_map(rows)),
    ensures
        verdict(pairs, ledger_map(rows)) == Err::<(), WorkError>(WorkError::HashMismatch),
        ({
            let run = query_run(reqid, outcome, rows);
            &&& run.stage == StageView::Failed(WorkError::HashMismatch)
            &&& apply_all(cache, run.commands) == cache
            &&& forall|i: int| 0 <= i < run.commands.len() ==> !(run.commands[i] is Publish)
        }),
{
    let run = query_run(reqid, outcome, rows);
    let read = CommandView::LedgerQuery { statement: read_of(outcome.model_name, pairs) };
    lemma_cells_are_read(rows);
    assert(pairs.len() > 0);
    assert(run.commands =~= seq![read]);
    lemma_apply_one(cache, read);
}

/// A post of kind `new` asks for the insert of its pair, and a query that
/// claims the same pair afterwards is confirmed by any read that tells
/// what the ledger holds after that insert.
pub proof fn law_insert_is_read_back(
    ledger: Table,
    post_reqid: Seq<char>,
    outcome: HandlerOutcomeView,
    pair: Pair,
    query_reqid: Seq<char>,
    body: Seq<char>,
    rows: Pairs,
)
    requires
        outcome.action == "new"@,
        outcome.pair_list matches Some(pairs) && pairs.len() > 0 && pairs[0] == pair,
        reflects(rows, Mutation::Insert.apply(ledger, pair), seq![pair.0]),
    ensures
        on_post_handled(post_reqid, Some(outcome)).commands[0] == (CommandView::LedgerExecute {
            statement: Mutation::Insert.statement_of(outcome.model_name, pair),
        }),
        verdict(seq![pair], ledger_map(rows)) is Ok,
        on_rows(query_reqid, outcome.model_name, seq![pair], body, Some(rows)) == settled_query(
            query_reqid,
            outcome.model_name,
            seq![pair],
            body,
        ),
{
    let ids = seq![pair.0];
    assert(ids[0] == pair.0);
    assert(pair_matches(ledger_map(rows), pair));
    assert(all_match(seq![pair], ledger_map(rows)));
    lemma_verdict_passes_iff_all_match(seq![pair], ledger_map(rows));
}

/// The cache after a `check_pair_list` callback ran to its end against
/// it: the commands performed in order, and the question about the
/// tentative slot answered from the cache.
pub open spec fn after_check_pair_list(
    cache: Slots,
    model: Seq<char>,
    payload: PayloadView,
) -> Slots {
    let first = on_payload(Action::CheckPairList, model, Some(payload));
    let asked = apply_all(cache, first.commands);
    match first.stage {
        StageView::AwaitTentative { reqid } => {
            let reply = ReplyView::Tentative(slot(asked, tentative_key(reqid)));
            apply_all(asked, resume(first.stage, reply).commands)
        },
        _ => asked,
    }
}

/// The cache after a confirmed callback: the status is `true`, the
/// tentative slot is gone, and the finalized slot holds what the
/// tentative slot held, or stays as it was if that slot held nothing.
pub proof fn lemma_after_verified(cache: Slots, model: Seq<char>, payload: PayloadView)
    requires
        payload.reqdata == Some("true"@),
    ensures
        ({
            let reqid = payload.reqid;
            let after = after_check_pair_list(cache, model, payload);
            &&& slot(after, status_key(reqid)) == Some(encode_utf8("true"@))
            &&& slot(after, tentative_key(reqid)) is None
            &&& slot(after, finalized_key(reqid)) == match slot(cache, tentative_key(reqid)) {
                Some(value) => Some(value),
                None => slot(cache, finalized_key(reqid)),
            }
        }),
{
    let reqid = payload.reqid;
    lemma_slots_distinct(reqid);
    let get = CommandView::CacheGet { key: tentative_key(reqid) };
    lemma_apply_one(cache, get);
    let set_status = CommandView::CacheSet { key: status_key(reqid), value: encode_utf8("true"@) };
    let delete = CommandView::CacheDel { key: tentative_key(reqid) };
    match slot(cache, tentative_key(reqid)) {
        Some(value) => {
            let set_final = CommandView::CacheSet { key: finalized_key(reqid), value };
            lemma_apply_three(cache, set_status, set_final, delete);
        },
        None => {
            lemma_apply_two(cache, set_status, delete);
        },
    }
}

/// The cache after a rejected callback: the status is `false`, the
/// finalized slot holds the fixed rejection text and the tentative slot
/// is gone.
pub proof fn lemma_after_rejected(cache: Slots, model: Seq<char>, payload: PayloadView)
    requires
        payload.reqdata != Some("true"@),
    ensures
        ({
            let reqid = payload.reqid;
            let after = after_check_pair_list(cache, model, payload);
            &&& slot(after, status_key(reqid)) == Some(encode_utf8("false"@))
            &&& slot(after, finalized_key(reqid)) == Some(encode_utf8(REJECTION@))
            &&& slot(after, tentative_key(reqid)) is None
        }),
{
    let reqid = payload.reqid;
    lemma_slots_distinct(reqid);
    lemma_apply_three(
        cache,
        CommandView::CacheSet { key: status_key(reqid), value: encode_utf8("false"@) },
        CommandView::CacheSet { key: finalized_key(reqid), value: encode_utf8(REJECTION@) },
        CommandView::CacheDel { key: tentative_key(reqid) },
    );
}

/// A confirmed callback for a request whose tentative slot holds `value`
/// leaves the status `true`, the finalized slot with `value` and the
/// tentative slot absent.
pub proof fn law_verified_promotes_tentative(
    cache: Slots,
    model: Seq<char>,
    payload: PayloadView,
    value: Seq<u8>,
)
    requires
        payload.reqdata == Some("true"@),
        slot(cache, tentative_key(payload.reqid)) == Some(value),
    ensures
        ({
            let reqid = payload.reqid;
            let after = after_check_pair_list(cache, model, payload);
            &&& slot(after, status_key(reqid)) == Some(encode_utf8("true"@))
            &&& slot(after, finalized_key(reqid)) == Some(value)
            &&& slot(after, tentative_key(reqid)) is None
        }),
{
    lemma_after_verified(cache, model, payload);
}

/// A rejecting callback, whatever its verdict says besides `true` and
/// whether or not a tentative value existed, leaves the status `false`,
/// the finalized slot with the fixed rejection text and the tentative
/// slot absent.
pub proof fn law_rejection_is_recorded(cache: Slots, model: Seq<char>, payload: PayloadView)
    requires
        payload.reqdata != Some("true"@),
    ensures
        ({
            let reqid = payload.reqid;
            let after = after_check_pair_list(cache, model, payload);
            &&& slot(after, status_key(reqid)) == Some(encode_utf8("false"@))
            &&& slot(after, finalized_key(reqid)) == Some(encode_utf8(REJECTION@))
            &&& slot(after, tentative_key(reqid)) is None
        }),
{
    lemma_after_rejected(cache, model, payload);
}

/// Replaying a `check_pair_list` callback changes nothing that a reader
/// sees: after the second run the status and the finalized slot of the
/// request are what they were after the first, and the tentative slot is
/// still absent.
pub proof fn law_callback_replay_is_idempotent(
    cache: Slots,
    model: Seq<char>,
    payload: PayloadView,
)
    ensures
        ({
            let reqid = payload.reqid;
            let once = after_check_pair_list(cache, model, payload);
            let twice = after_check_pair_list(once, model, payload);
            &&& slot(twice, status_key(reqid)) == slot(once, status_key(reqid))
            &&& slot(twice, finalized_key(reqid)) == slot(once, finalized_key(reqid))
            &&& slot(twice, tentative_key(reqid)) == slot(once, tentative_key(reqid))
        }),
{
    let once = after_check_pair_list(cache, model, payload);
    if payload.reqdata == Some("true"@) {
        lemma_after_verified(cache, model, payload);
        lemma_after_verified(once, model, payload);
    } else {
        lemma_after_rejected(cache, model, payload);
        lemma_after_rejected(once, model, payload);
    }
}

/// The whole life of a confirmed query: once the ledger has confirmed its
/// pairs and the verifier has answered `true`, the finalized slot holds
/// the handler's result body, the status is `true` and the tentative
/// slot is gone. Until the verifier answers, the query itself leaves the
/// status and the finalized slot as they were.
pub proof fn law_confirmed_query_is_finalized(
    cache: Slots,
    reqid: Seq<char>,
    outcome: HandlerOutcomeView,
    pairs: Pairs,
    rows: Pairs,
    model: Seq<char>,
)
    requires
        outcome.pair_list == Some(pairs),
        all_match(pairs, ledger_map(rows)),
    ensures
        ({
            let pending = apply_all(cache, query_run(reqid, outcome, rows).commands);
            let verdict = PayloadView { reqid, reqdata: Some("true"@) };
            let settled = after_check_pair_list(pending, model, verdict);
            &&& slot(pending, status_key(reqid)) == slot(cache, status_key(reqid))
            &&& slot(pending, finalized_key(reqid)) == slot(cache, finalized_key(reqid))
            &&& slot(settled, status_key(reqid)) == Some(encode_utf8("true"@))
            &&& slot(settled, finalized_key(reqid)) == Some(encode_utf8(body_of(outcome)))
            &&& slot(settled, tentative_key(reqid)) is None
        }),
{
    let pending = apply_all(cache, query_run(reqid, outcome, rows).commands);
    let verdict = PayloadView { reqid, reqdata: Some("true"@) };
    lemma_slots_distinct(reqid);
    law_confirmed_query_is_stashed(cache, reqid, outcome, pairs, body_of(outcome), rows);
    law_verified_promotes_tentative(pending, model, verdict, encode_utf8(body_of(outcome)));
}

/// A post writes nothing into the cache: whatever the handler answered,
/// every slot is afterwards what it was. Only the indexer's
/// acknowledgment finalizes a post.
pub proof fn law_post_caches_nothing(
    cache: Slots,
    reqid: Seq<char>,
    outcome: Option<HandlerOutcomeView>,
)
    ensures
        apply_all(cache, on_post_handled(reqid, outcome).commands) == cache,
{
    let commands = on_post_handled(reqid, outcome).commands;
    if commands.len() == 1 {
        assert(commands =~= seq![commands[0]]);
        lemma_apply_one(cache, commands[0]);
    } else if commands.len() == 2 {
        assert(commands =~= seq![commands[0], commands[1]]);
        lemma_apply_two(cache, commands[0], commands[1]);
    } else {
        assert(commands.len() == 0);
    }
}

/// An envelope whose action tag is none of the four known tags fails with
/// `UnknownAction` and asks for nothing.
pub proof fn law_unknown_action_is_rejected(envelope: InputOutputObjectView)
    requires
        envelope.action != Action::Query.tag(),
        envelope.action != Action::Post.tag(),
        envelope.action != Action::UpdateIndex.tag(),
        envelope.action != Action::CheckPairList.tag(),
    ensures
        begin(envelope) == failed(WorkError::UnknownAction),
        begin(envelope).commands.len() == 0,
{
}

/// An `update_index` envelope whose data is `reqid:id:hash`, with no colon
/// inside a field, is settled at once: the status of the request becomes
/// `true` and its finalized slot holds `id:hash`.
pub proof fn law_index_acknowledgment_is_recorded(
    cache: Slots,
    envelope: InputOutputObjectView,
    reqid: Seq<char>,
    id: Seq<char>,
    hash: Seq<char>,
)
    requires
        envelope.action == Action::UpdateIndex.tag(),
        envelope.data == encode_utf8(reqid + ":"@ + id + ":"@ + hash),
        colon_free(reqid),
        colon_free(id),
        colon_free(hash),
    ensures
        ({
            let step = begin(envelope);
            let after = apply_all(cache, step.commands);
            &&& step.stage == StageView::Done
            &&& step.commands == acknowledged(reqid, id, hash)
            &&& slot(after, status_key(reqid)) == Some(encode_utf8("true"@))
            &&& slot(after, finalized_key(reqid)) == Some(encode_utf8(id + ":"@ + hash))
        }),
{
    let text = reqid + ":"@ + id + ":"@ + hash;
    let step = begin(envelope);
    assert(Action::named_by(envelope.action) == Some(Action::UpdateIndex)) by {
        Action::UpdateIndex.lemma_tag_names_action();
    }
    assert(index_triple(envelope.data) == Some((reqid, id, hash))) by {
        encode_utf8_valid_utf8(text);
        encode_utf8_decode_utf8(text);
        lemma_index_fields_of_joined(reqid, id, hash);
    }
    assert(step.commands == acknowledged(reqid, id, hash));
    let set_status = CommandView::CacheSet { key: status_key(reqid), value: encode_utf8("true"@) };
    let set_final = CommandView::CacheSet {
        key: finalized_key(reqid),
        value: encode_utf8(id + ":"@ + hash),
    };
    assert(acknowledged(reqid, id, hash) == seq![set_status, set_final]);
    lemma_slots_distinct(reqid);
    lemma_apply_two(cache, set_status, set_final);
}

/// The first step for any envelope is orderly.
pub proof fn law_first_step_is_orderly(envelope: InputOutputObjectView)
    ensures
        begin(envelope).orderly(),
{
    let step = begin(envelope);
    match Action::named_by(envelope.action) {
        Some(Action::UpdateIndex) => {
            match index_triple(envelope.data) {
                Some(triple) => {
                    assert(step.commands == acknowledged(triple.0, triple.1, triple.2));
                    assert(step.commands.len() == 2);
                    assert(!step.commands[0].is_question());
                    assert(!step.commands[1].is_question());
                },
                None => {},
            }
        },
        Some(_) => {
            assert(step.commands.len() == 1);
            assert(step.commands.last() is DecodePayload);
        },
        None => {},
    }
}

/// The step after any reply in any stage is orderly.
pub proof fn law_next_step_is_orderly(stage: StageView, reply: ReplyView)
    ensures
        resume(stage, reply).orderly(),
{
    let step = resume(stage, reply);
    if step.stage is Failed {
        assert(step.commands.len() == 0);
    } else if step.stage.awaits() {
        assert(step.commands.len() == 1);
        assert(step.stage.asks(step.commands[0]));
    } else {
        assert(step.stage == StageView::Done);
        assert(0 < step.commands.len() <= 3);
        let commands = step.commands;
        assert forall|i: int| 0 <= i < commands.len() implies !(#[trigger] commands[i]).is_question() by {
            let c = commands[i];
            assert(c is CacheSet || c is CacheDel || c is Publish || c is LedgerExecute);
        }
    }
}

/// An invocation ends: the first step leaves at most three replies to
/// take, and each reply in a waiting stage leaves fewer than before.
pub proof fn law_every_reply_brings_the_end_closer(
    envelope: InputOutputObjectView,
    stage: StageView,
    reply: ReplyView,
)
    ensures
        begin(envelope).stage.replies_left() <= 3,
        stage.awaits() ==> resume(stage, reply).stage.replies_left() < stage.replies_left(),
        !stage.awaits() ==> resume(stage, reply) == failed(WorkError::UnexpectedReply),
        resume(stage, reply).stage.awaits() <==> resume(stage, reply).stage.replies_left() > 0,
{
}

/// The slots of two requests lie under different keys, unless one
/// identifier is the other with `status:` before it: then the finalized
/// slot of the longer is the status slot of the shorter.
pub proof fn law_slots_of_requests_are_apart(a: Seq<char>, b: Seq<char>)
    requires
        a != b,
        a != "status:"@ + b,
        b != "status:"@ + a,
    ensures
        tentative_key(a) != tentative_key(b),
        tentative_key(a) != status_key(b),
        tentative_key(a) != finalized_key(b),
        status_key(a) != tentative_key(b),
        status_key(a) != status_key(b),
        status_key(a) != finalized_key(b),
        finalized_key(a) != tentative_key(b),
        finalized_key(a) != status_key(b),
        finalized_key(a) != finalized_key(b),
{
    reveal_strlit("tmp:cache:");
    reveal_strlit("cache:status:");
    reveal_strlit("cache:");
    reveal_strlit("status:");
    assert(tentative_key(a)[0] == 't' && tentative_key(b)[0] == 't');
    assert(status_key(a)[0] == 'c' && status_key(b)[0] == 'c');
    assert(finalized_key(a)[0] == 'c' && finalized_key(b)[0] == 'c');
    if tentative_key(a) == tentative_key(b) {
        assert(a =~= tentative_key(a).skip(10));
        assert(b =~= tentative_key(b).skip(10));
    }
    if status_key(a) == status_key(b) {
        assert(a =~= status_key(a).skip(13));
        assert(b =~= status_key(b).skip(13));
    }
    if finalized_key(a) == finalized_key(b) {
        assert(a =~= finalized_key(a).skip(6));
        assert(b =~= finalized_key(b).skip(6));
    }
    if finalized_key(a) == status_key(b) {
        assert(a =~= finalized_key(a).skip(6));
        assert("status:"@ + b =~= status_key(b).skip(6));
    }
    if status_key(a) == finalized_key(b) {
        assert(b =~= finalized_key(b).skip(6));
        assert("status:"@ + a =~= status_key(a).skip(6));
    }
}

/// Whoever finds the finalized slot of the request filled finds its
/// status slot filled too.
pub open spec fn status_covers_finalized(cache: Slots, reqid: Seq<char>) -> bool {
    cache.contains_key(finalized_key(reqid)) ==> cache.contains_key(status_key(reqid))
}

/// The commands that settle a request in the cache.
pub open spec fn settles(commands: Seq<CommandView>, reqid: Seq<char>) -> bool {
    ||| commands == rejected(reqid)
    ||| exists|tentative: Option<Seq<u8>>| commands == promoted(reqid, tentative)
    ||| exists|id: Seq<char>, hash: Seq<char>| commands == acknowledged(reqid, id, hash)
}

/// While a request is settled, the status is written no later than the
/// finalized slot: after each command, as before the first, a filled
/// finalized slot comes with a filled status slot.
pub proof fn law_status_is_written_first(
    cache: Slots,
    reqid: Seq<char>,
    commands: Seq<CommandView>,
    done: int,
)
    requires
        settles(commands, reqid),
        status_covers_finalized(cache, reqid),
        0 <= done <= commands.len(),
    ensures
        status_covers_finalized(apply_all(cache, commands.take(done)), reqid),
{
    lemma_slots_distinct(reqid);
    let prefix = commands.take(done);
    assert(commands.len() <= 3);
    assert(commands.len() >= 1);
    let first = commands[0];
    assert(first is CacheSet && first->CacheSet_key == status_key(reqid));
    if done == 0 {
        assert(prefix =~= Seq::empty());
    } else if done == 1 {
        assert(prefix =~= seq![commands[0]]);
        lemma_apply_one(cache, commands[0]);
    } else if done == 2 {
        assert(prefix =~= seq![commands[0], commands[1]]);
        lemma_apply_two(cache, commands[0], commands[1]);
    } else {
        assert(prefix =~= seq![commands[0], commands[1], commands[2]]);
        lemma_apply_three(cache, commands[0], commands[1], commands[2]);
    }
}

} // verus!
