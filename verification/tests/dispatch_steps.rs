use spin_worker::command::Command;
use spin_worker::dispatch::{
    advance, after_payload, after_post_handled, after_query_handled, after_rows, start, Reply, Stage, Step,
};
use spin_worker::envelope::{Action, InputOutputObject, Payload};
use spin_worker::error::WorkError;
use spin_worker::handler::{HandlerOutcome, Method};
use spin_worker::ledger::{Cell, Statement};

fn text(s: &str) -> String {
    s.to_string()
}

fn pairs(items: &[(&str, &str)]) -> Vec<(String, String)> {
    items.iter().map(|(id, hash)| (id.to_string(), hash.to_string())).collect()
}

fn envelope(model: &str, action: &str, data: &[u8]) -> InputOutputObject {
    InputOutputObject { model: text(model), action: text(action), data: data.to_vec(), time: 7 }
}

fn payload(reqid: &str, reqdata: Option<&str>) -> Payload {
    Payload { reqid: text(reqid), reqdata: reqdata.map(text) }
}

fn outcome(model: &str, action: &str, list: Option<&[(&str, &str)]>, body: Option<&str>) -> HandlerOutcome {
    HandlerOutcome {
        model_name: text(model),
        action: text(action),
        pair_list: list.map(pairs),
        result_body: body.map(text),
    }
}

fn cells(items: &[(&str, &str)]) -> Vec<Vec<Cell>> {
    items.iter().map(|(id, hash)| vec![Cell::Text(text(id)), Cell::Text(text(hash))]).collect()
}

fn failed(error: WorkError) -> Step {
    Step { stage: Stage::Failed(error), commands: vec![] }
}

fn set(key: &str, value: &[u8]) -> Command {
    Command::CacheSet { key: text(key), value: value.to_vec() }
}

fn del(key: &str) -> Command {
    Command::CacheDel { key: text(key) }
}

/// The message as `serde_json` writes it from a value built field by field.
fn message(model: &str, action: &str, reqid: &str, list: &Vec<(String, String)>) -> Vec<u8> {
    let mut inner = serde_json::Map::new();
    inner.insert(text("reqid"), serde_json::Value::from(reqid));
    inner.insert(text("reqdata"), serde_json::to_value(list).unwrap());
    let data = serde_json::Value::Object(inner).to_string().into_bytes();
    let mut outer = serde_json::Map::new();
    outer.insert(text("model"), serde_json::Value::from(model));
    outer.insert(text("action"), serde_json::Value::from(action));
    outer.insert(text("data"), serde_json::Value::from(data));
    outer.insert(text("time"), serde_json::Value::from(0));
    serde_json::Value::Object(outer).to_string().into_bytes()
}

fn publish(model: &str, action: &str, reqid: &str, list: &[(&str, &str)]) -> Command {
    Command::Publish { channel: text("spin2proxy"), message: message(model, action, reqid, &pairs(list)) }
}

#[test]
fn query_envelope_asks_for_its_payload() {
    let step = start(envelope("/article/1", "query", b"{\"reqid\":\"r\"}"));
    assert_eq!(
        step,
        Step {
            stage: Stage::AwaitPayload { action: Action::Query, model: text("/article/1") },
            commands: vec![Command::DecodePayload { data: b"{\"reqid\":\"r\"}".to_vec() }],
        }
    );
}

#[test]
fn post_envelope_asks_for_its_payload() {
    let step = start(envelope("/article/new", "post", b"x"));
    assert_eq!(
        step,
        Step {
            stage: Stage::AwaitPayload { action: Action::Post, model: text("/article/new") },
            commands: vec![Command::DecodePayload { data: b"x".to_vec() }],
        }
    );
}

#[test]
fn check_pair_list_envelope_asks_for_its_payload() {
    let step = start(envelope("article", "check_pair_list", b"y"));
    assert_eq!(
        step,
        Step {
            stage: Stage::AwaitPayload { action: Action::CheckPairList, model: text("article") },
            commands: vec![Command::DecodePayload { data: b"y".to_vec() }],
        }
    );
}

#[test]
fn update_index_sets_status_and_finalized() {
    let step = start(envelope("article", "update_index", b"R:42:abcd"));
    assert_eq!(
        step,
        Step {
            stage: Stage::Done,
            commands: vec![set("cache:status:R", b"true"), set("cache:R", b"42:abcd")],
        }
    );
}

#[test]
fn update_index_with_malformed_data_fails() {
    assert_eq!(start(envelope("article", "update_index", b"R:42")), failed(WorkError::DecodeError));
    assert_eq!(start(envelope("article", "update_index", b"")), failed(WorkError::DecodeError));
    assert_eq!(
        start(envelope("article", "update_index", &[0xff, b':', b':'])),
        failed(WorkError::DecodeError)
    );
}

#[test]
fn unknown_action_is_fatal() {
    for action in ["", "delete", "Query", "update_index ", "checkPairList", "purge"] {
        assert_eq!(
            start(envelope("article", action, b"R:42:abcd")),
            failed(WorkError::UnknownAction)
        );
    }
}

#[test]
fn unknown_action_is_rejected_the_same_way_each_time() {
    let first = start(envelope("m", "nope", b"{}"));
    let second = start(envelope("m", "nope", b"{}"));
    assert_eq!(first, second);
    assert_eq!(first.stage, Stage::Failed(WorkError::UnknownAction));
    assert!(first.commands.is_empty());
}

#[test]
fn malformed_payload_fails() {
    for action in [Action::Query, Action::Post, Action::CheckPairList] {
        assert_eq!(after_payload(action, text("m"), None), failed(WorkError::DecodeError));
    }
}

#[test]
fn query_payload_becomes_a_get_request() {
    let step = after_payload(Action::Query, text("/article/1"), Some(payload("r1", Some("id=1"))));
    assert_eq!(
        step,
        Step {
            stage: Stage::AwaitHandler { action: Action::Query, reqid: text("r1") },
            commands: vec![
                Command::Handle { method: Method::Get, path: text("/article/1"), body: Some(text("id=1")) },
            ],
        }
    );
}

#[test]
fn post_payload_becomes_a_post_request() {
    let step = after_payload(Action::Post, text("/article/new"), Some(payload("r2", None)));
    assert_eq!(
        step,
        Step {
            stage: Stage::AwaitHandler { action: Action::Post, reqid: text("r2") },
            commands: vec![
                Command::Handle { method: Method::Post, path: text("/article/new"), body: None },
            ],
        }
    );
}

#[test]
fn verified_verdict_reads_the_tentative_slot() {
    let step = after_payload(Action::CheckPairList, text("article"), Some(payload("R", Some("true"))));
    assert_eq!(
        step,
        Step {
            stage: Stage::AwaitTentative { reqid: text("R") },
            commands: vec![Command::CacheGet { key: text("tmp:cache:R") }],
        }
    );
}

#[test]
fn any_other_verdict_rejects() {
    for verdict in [Some("false"), Some("True"), Some("true "), Some(""), Some("1"), None] {
        let step = after_payload(Action::CheckPairList, text("article"), Some(payload("R", verdict)));
        assert_eq!(
            step,
            Step {
                stage: Stage::Done,
                commands: vec![
                    set("cache:status:R", b"false"),
                    set("cache:R", b"check of pair list wrong!"),
                    del("tmp:cache:R"),
                ],
            }
        );
    }
}

#[test]
fn payload_for_update_index_is_unexpected() {
    assert_eq!(
        after_payload(Action::UpdateIndex, text("m"), Some(payload("R", None))),
        failed(WorkError::UnexpectedReply)
    );
}

#[test]
fn query_handler_failure() {
    assert_eq!(
        after_query_handled(text("r"), None),
        failed(WorkError::HandlerFailure(Action::Query))
    );
}

#[test]
fn post_handler_failure() {
    assert_eq!(
        after_post_handled(text("r"), None),
        failed(WorkError::HandlerFailure(Action::Post))
    );
}

#[test]
fn query_outcome_without_pairs_fails() {
    assert_eq!(
        after_query_handled(text("r"), Some(outcome("article", "", None, Some("body")))),
        failed(WorkError::MissingPair)
    );
}

#[test]
fn query_outcome_asks_the_ledger() {
    let step = after_query_handled(
        text("r"),
        Some(outcome("article", "", Some(&[("1", "a"), ("2", "b")]), Some("body"))),
    );
    assert_eq!(
        step,
        Step {
            stage: Stage::AwaitLedger {
                reqid: text("r"),
                model: text("article"),
                pairs: pairs(&[("1", "a"), ("2", "b")]),
                body: text("body"),
            },
            commands: vec![
                Command::LedgerQuery {
                    statement: Statement {
                        text: text("select id, hash from article_idhash where id in ($1,$2)"),
                        params: vec![text("1"), text("2")],
                    },
                },
            ],
        }
    );
}

#[test]
fn query_outcome_without_body_stashes_the_empty_text() {
    let step = after_query_handled(text("r"), Some(outcome("article", "", Some(&[("1", "a")]), None)));
    match step.stage {
        Stage::AwaitLedger { body, .. } => assert_eq!(body, ""),
        other => panic!("unexpected stage {:?}", other),
    }
}

#[test]
fn query_with_an_empty_pair_list_is_settled_at_once() {
    let step = after_query_handled(text("r"), Some(outcome("article", "", Some(&[]), Some("[]"))));
    assert_eq!(
        step,
        Step {
            stage: Stage::Done,
            commands: vec![set("tmp:cache:r", b"[]"), publish("article", "check_pair_list", "r", &[])],
        }
    );
}

#[test]
fn confirmed_query_stashes_then_publishes() {
    let list = [("1", "a"), ("2", "b")];
    let step = after_rows(
        text("r"),
        text("article"),
        pairs(&list),
        text("the body"),
        Some(pairs(&[("1", "a"), ("2", "b")])),
    );
    assert_eq!(
        step,
        Step {
            stage: Stage::Done,
            commands: vec![
                set("tmp:cache:r", b"the body"),
                publish("article", "check_pair_list", "r", &list),
            ],
        }
    );
}

#[test]
fn mismatching_query_writes_nothing() {
    let step = after_rows(
        text("r"),
        text("article"),
        pairs(&[("1", "a"), ("2", "b")]),
        text("the body"),
        Some(pairs(&[("1", "a"), ("2", "other")])),
    );
    assert_eq!(step, failed(WorkError::HashMismatch));
}

#[test]
fn query_for_an_id_the_ledger_lacks_fails() {
    let step = after_rows(
        text("r"),
        text("article"),
        pairs(&[("1", "a"), ("2", "b")]),
        text("the body"),
        Some(pairs(&[("1", "a")])),
    );
    assert_eq!(step, failed(WorkError::LookupFailure));
}

#[test]
fn unreadable_ledger_fails_the_query() {
    let step = after_rows(text("r"), text("article"), pairs(&[("1", "a")]), text("b"), None);
    assert_eq!(step, failed(WorkError::StoreUnavailable));
}

#[test]
fn post_new_inserts_then_publishes() {
    let step = after_post_handled(
        text("r"),
        Some(outcome("article", "new", Some(&[("42", "abcd")]), Some("ok"))),
    );
    assert_eq!(
        step,
        Step {
            stage: Stage::Done,
            commands: vec![
                Command::LedgerExecute {
                    statement: Statement {
                        text: text("insert into article_idhash values ($1, $2)"),
                        params: vec![text("42"), text("abcd")],
                    },
                },
                publish("article", "update_index", "r", &[("42", "abcd")]),
            ],
        }
    );
}

#[test]
fn post_update_updates_then_publishes() {
    let step = after_post_handled(text("r"), Some(outcome("article", "update", Some(&[("42", "ef")]), None)));
    assert_eq!(
        step,
        Step {
            stage: Stage::Done,
            commands: vec![
                Command::LedgerExecute {
                    statement: Statement {
                        text: text("update article_idhash set hash = $2 where id = $1"),
                        params: vec![text("42"), text("ef")],
                    },
                },
                publish("article", "update_index", "r", &[("42", "ef")]),
            ],
        }
    );
}

#[test]
fn post_delete_deletes_then_publishes() {
    let step = after_post_handled(text("r"), Some(outcome("article", "delete", Some(&[("42", "ef")]), None)));
    assert_eq!(
        step,
        Step {
            stage: Stage::Done,
            commands: vec![
                Command::LedgerExecute {
                    statement: Statement {
                        text: text("delete from article_idhash where id = $1"),
                        params: vec![text("42")],
                    },
                },
                publish("article", "update_index", "r", &[("42", "ef")]),
            ],
        }
    );
}

#[test]
fn post_of_another_kind_only_publishes() {
    for kind in ["", "noop", "New", "query"] {
        let step = after_post_handled(text("r"), Some(outcome("article", kind, Some(&[("42", "ef")]), None)));
        assert_eq!(
            step,
            Step {
                stage: Stage::Done,
                commands: vec![publish("article", "update_index", "r", &[("42", "ef")])],
            }
        );
    }
}

#[test]
fn post_uses_only_the_first_pair() {
    let step = after_post_handled(
        text("r"),
        Some(outcome("article", "new", Some(&[("1", "a"), ("2", "b")]), None)),
    );
    assert_eq!(step.commands.len(), 2);
    assert_eq!(
        step.commands[0],
        Command::LedgerExecute {
            statement: Statement {
                text: text("insert into article_idhash values ($1, $2)"),
                params: vec![text("1"), text("a")],
            },
        }
    );
    assert_eq!(step.commands[1], publish("article", "update_index", "r", &[("1", "a")]));
}

#[test]
fn post_without_a_pair_fails() {
    assert_eq!(
        after_post_handled(text("r"), Some(outcome("article", "new", None, None))),
        failed(WorkError::MissingPair)
    );
    assert_eq!(
        after_post_handled(text("r"), Some(outcome("article", "new", Some(&[]), None))),
        failed(WorkError::MissingPair)
    );
}

#[test]
fn tentative_value_is_promoted() {
    let step = advance(Stage::AwaitTentative { reqid: text("R") }, Reply::Tentative(Some(b"V".to_vec())));
    assert_eq!(
        step,
        Step {
            stage: Stage::Done,
            commands: vec![set("cache:status:R", b"true"), set("cache:R", b"V"), del("tmp:cache:R")],
        }
    );
}

#[test]
fn missing_tentative_value_still_confirms() {
    let step = advance(Stage::AwaitTentative { reqid: text("R") }, Reply::Tentative(None));
    assert_eq!(
        step,
        Step { stage: Stage::Done, commands: vec![set("cache:status:R", b"true"), del("tmp:cache:R")] }
    );
}

#[test]
fn advance_routes_each_reply_to_its_stage() {
    assert_eq!(
        advance(
            Stage::AwaitPayload { action: Action::Query, model: text("/p") },
            Reply::Payload(Some(payload("r", Some("b")))),
        ),
        after_payload(Action::Query, text("/p"), Some(payload("r", Some("b"))))
    );
    let seen = outcome("article", "new", Some(&[("1", "a")]), Some("body"));
    assert_eq!(
        advance(
            Stage::AwaitHandler { action: Action::Query, reqid: text("r") },
            Reply::Handled(Some(seen.clone())),
        ),
        after_query_handled(text("r"), Some(seen.clone()))
    );
    assert_eq!(
        advance(
            Stage::AwaitHandler { action: Action::Post, reqid: text("r") },
            Reply::Handled(Some(seen.clone())),
        ),
        after_post_handled(text("r"), Some(seen))
    );
    assert_eq!(
        advance(
            Stage::AwaitLedger {
                reqid: text("r"),
                model: text("article"),
                pairs: pairs(&[("1", "a")]),
                body: text("b"),
            },
            Reply::LedgerRows(Some(cells(&[("1", "a")]))),
        ),
        after_rows(text("r"), text("article"), pairs(&[("1", "a")]), text("b"), Some(pairs(&[("1", "a")])))
    );
}

#[test]
fn reply_to_another_question_is_unexpected() {
    let stages = [
        Stage::AwaitPayload { action: Action::Query, model: text("m") },
        Stage::AwaitHandler { action: Action::Query, reqid: text("r") },
        Stage::AwaitLedger { reqid: text("r"), model: text("m"), pairs: vec![], body: text("") },
        Stage::AwaitTentative { reqid: text("r") },
        Stage::Done,
        Stage::Failed(WorkError::HashMismatch),
    ];
    let replies = [
        Reply::Payload(Some(payload("r", None))),
        Reply::Handled(None),
        Reply::LedgerRows(Some(vec![])),
        Reply::Tentative(None),
    ];
    assert_eq!(cells(&[]), Vec::<Vec<Cell>>::new());
    for (s, stage) in stages.iter().enumerate() {
        for (r, reply) in replies.iter().enumerate() {
            if s == r {
                continue;
            }
            assert_eq!(advance(stage.clone(), reply.clone()), failed(WorkError::UnexpectedReply));
        }
    }
}

#[test]
fn handler_reply_for_a_callback_action_is_unexpected() {
    for action in [Action::UpdateIndex, Action::CheckPairList] {
        assert_eq!(
            advance(Stage::AwaitHandler { action, reqid: text("r") }, Reply::Handled(None)),
            failed(WorkError::UnexpectedReply)
        );
    }
}

#[test]
fn ledger_reply_with_a_spoiled_row_fails_the_query() {
    let stage = Stage::AwaitLedger {
        reqid: text("r"),
        model: text("article"),
        pairs: pairs(&[("1", "a")]),
        body: text("b"),
    };
    for spoiled in [
        vec![vec![Cell::Text(text("1"))]],
        vec![vec![]],
        vec![vec![Cell::Other, Cell::Text(text("a"))]],
        vec![vec![Cell::Text(text("1")), Cell::Other]],
        vec![vec![Cell::Text(text("1")), Cell::Text(text("a"))], vec![Cell::Other, Cell::Other]],
    ] {
        assert_eq!(
            advance(stage.clone(), Reply::LedgerRows(Some(spoiled))),
            failed(WorkError::StoreUnavailable)
        );
    }
    assert_eq!(advance(stage, Reply::LedgerRows(None)), failed(WorkError::StoreUnavailable));
}

#[test]
fn ledger_reply_is_checked_against_the_claimed_pairs() {
    let stage = Stage::AwaitLedger {
        reqid: text("r"),
        model: text("article"),
        pairs: pairs(&[("1", "a"), ("2", "b")]),
        body: text("body"),
    };
    assert_eq!(
        advance(stage.clone(), Reply::LedgerRows(Some(cells(&[("1", "a"), ("2", "b")])))),
        Step {
            stage: Stage::Done,
            commands: vec![
                set("tmp:cache:r", b"body"),
                publish("article", "check_pair_list", "r", &[("1", "a"), ("2", "b")]),
            ],
        }
    );
    assert_eq!(
        advance(stage.clone(), Reply::LedgerRows(Some(cells(&[("1", "a"), ("2", "c")])))),
        failed(WorkError::HashMismatch)
    );
    assert_eq!(
        advance(stage, Reply::LedgerRows(Some(cells(&[("1", "a")])))),
        failed(WorkError::LookupFailure)
    );
}
