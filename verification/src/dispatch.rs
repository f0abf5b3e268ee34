//! The dispatcher: one envelope, handled to completion in steps.
//!
//! The worker performs no operation itself. Each step names the commands
//! for the caller to perform, in order, and the stage the invocation is
//! in. While the stage awaits something, the last command is a question;
//! the caller hands its answer to `advance` and gets the next step.

use crate::cache::{
    acknowledge, acknowledged, index_triple, make_tentative_key, parse_index, promote, promoted, reject,
    rejected, stash, stashed, tentative_key,
};
use crate::channel::{correlation_message, tail_post, tail_query, CHANNEL_SPIN2PROXY};
use crate::command::{Command, CommandView};
use crate::envelope::{Action, InputOutputObject, InputOutputObjectView, Payload, PayloadView};
use crate::error::WorkError;
use crate::handler::{HandlerOutcome, HandlerOutcomeView, Method};
use crate::laws::{law_first_step_is_orderly, law_next_step_is_orderly};
use crate::ledger::{
    all_match, any_mismatch, check_pairs, ledger_map, read_of, read_rows, read_statement, rows_read,
    verdict, Cell, CellView, Mutation,
};
use crate::text::same_text;
use crate::model::{Pairs};
use vstd::prelude::*;

verus! {

/// Where an invocation stands.
#[derive(Clone, Debug, PartialEq, Eq)]
pub enum Stage {
    /// The payload of the envelope is being decoded.
    AwaitPayload { action: Action, model: String },
    /// The handling layer is working on the request.
    AwaitHandler { action: Action, reqid: String },
    /// The ledger is being read for the pairs of a query.
    AwaitLedger { reqid: String, model: String, pairs: Vec<(String, String)>, body: String },
    /// The tentative slot of a confirmed request is being read.
    AwaitTentative { reqid: String },
    /// The invocation finished.
    Done,
    /// The invocation failed.
    Failed(WorkError),
}

/// What a stage holds, as mathematical values.
pub ghost enum StageView {
    AwaitPayload { action: Action, model: Seq<char> },
    AwaitHandler { action: Action, reqid: Seq<char> },
    AwaitLedger { reqid: Seq<char>, model: Seq<char>, pairs: Pairs, body: Seq<char> },
    AwaitTentative { reqid: Seq<char> },
    Done,
    Failed(WorkError),
}

impl View for Stage {
    type V = StageView;

    open spec fn view(&self) -> StageView {
        match self {
            Stage::AwaitPayload { action, model } => StageView::AwaitPayload {
                action: *action,
                model: model@,
            },
            Stage::AwaitHandler { action, reqid } => StageView::AwaitHandler {
                action: *action,
                reqid: reqid@,
            },
            Stage::AwaitLedger { reqid, model, pairs, body } => StageView::AwaitLedger {
                reqid: reqid@,
                model: model@,
                pairs: pairs.deep_view(),
                body: body@,
            },
            Stage::AwaitTentative { reqid } => StageView::AwaitTentative { reqid: reqid@ },
            Stage::Done => StageView::Done,
            Stage::Failed(error) => StageView::Failed(*error),
        }
    }
}

/// The caller's answer to the question a step ended with.
#[derive(Clone, Debug, PartialEq, Eq)]
pub enum Reply {
    /// The decoded payload, or `None` if the bytes are malformed.
    Payload(Option<Payload>),
    /// The handler's outcome, or `None` if the handler failed.
    Handled(Option<HandlerOutcome>),
    /// The rows that were read, or `None` if the read failed.
    LedgerRows(Option<Vec<Vec<Cell>>>),
    /// The value of the slot, or `None` if the slot holds none.
    Tentative(Option<Vec<u8>>),
}

/// What a reply holds, as mathematical values.
pub ghost enum ReplyView {
    Payload(Option<PayloadView>),
    Handled(Option<HandlerOutcomeView>),
    LedgerRows(Option<Seq<Seq<CellView>>>),
    Tentative(Option<Seq<u8>>),
}

impl View for Reply {
    type V = ReplyView;

    open spec fn view(&self) -> ReplyView {
        match self {
            Reply::Payload(payload) => ReplyView::Payload(
                match payload {
                    Some(payload) => Some(payload@),
                    None => None,
                },
            ),
            Reply::Handled(outcome) => ReplyView::Handled(
                match outcome {
                    Some(outcome) => Some(outcome@),
                    None => None,
                },
            ),
            Reply::LedgerRows(rows) => ReplyView::LedgerRows(rows.deep_view()),
            Reply::Tentative(value) => ReplyView::Tentative(value.deep_view()),
        }
    }
}

/// One step of an invocation: the commands to perform now, in order, and
/// the stage the invocation is in once they are performed.
#[derive(Clone, Debug, PartialEq, Eq)]
pub struct Step {
    pub stage: Stage,
    pub commands: Vec<Command>,
}

/// What a step holds, as mathematical values.
pub ghost struct StepView {
    pub stage: StageView,
    pub commands: Seq<CommandView>,
}

impl View for Step {
    type V = StepView;

    open spec fn view(&self) -> StepView {
        StepView { stage: self.stage@, commands: self.commands.deep_view() }
    }
}

impl StageView {
    /// Whether the invocation waits for a reply in this stage.
    pub open spec fn awaits(self) -> bool {
        !(self is Done || self is Failed)
    }

    /// The question this stage waits on.
    pub open spec fn asks(self, command: CommandView) -> bool {
        match self {
            StageView::AwaitPayload { .. } => command is DecodePayload,
            StageView::AwaitHandler { .. } => command is Handle,
            StageView::AwaitLedger { .. } => command is LedgerQuery,
            StageView::AwaitTentative { .. } => command is CacheGet,
            _ => false,
        }
    }

    /// How many replies the invocation can still take before it ends.
    pub open spec fn replies_left(self) -> nat {
        match self {
            StageView::AwaitPayload { .. } => 3,
            StageView::AwaitHandler { .. } => 2,
            StageView::AwaitLedger { .. } => 1,
            StageView::AwaitTentative { .. } => 1,
            _ => 0,
        }
    }
}

impl StepView {
    /// A step is orderly when it asks a question exactly if its stage
    /// waits, the question is the one the stage waits on and stands last,
    /// and a failed step holds no command.
    pub open spec fn orderly(self) -> bool {
        &&& forall|i: int|
            0 <= i < self.commands.len() - 1 ==> !(#[trigger] self.commands[i]).is_question()
        &&& self.stage.awaits() ==> self.commands.len() > 0 && self.stage.asks(self.commands.last())
        &&& !self.stage.awaits() ==> forall|i: int|
            0 <= i < self.commands.len() ==> !(#[trigger] self.commands[i]).is_question()
        &&& self.stage is Failed ==> self.commands.len() == 0
    }
}

/// The step that fails an invocation. It asks for nothing.
pub open spec fn failed(error: WorkError) -> StepView {
    StepView { stage: StageView::Failed(error), commands: Seq::empty() }
}

/// The message that asks for `action` on `pairs`, on the one channel.
pub open spec fn published(
    model: Seq<char>,
    action: Action,
    reqid: Seq<char>,
    pairs: Pairs,
) -> CommandView {
    CommandView::Publish {
        channel: CHANNEL_SPIN2PROXY@,
        message: correlation_message(model, action, reqid, pairs),
    }
}

/// The first step for an envelope. An `update_index` envelope is settled
/// at once; the three other actions begin with the decoding of the
/// payload; any other action tag fails the invocation.
pub open spec fn begin(envelope: InputOutputObjectView) -> StepView {
    match Action::named_by(envelope.action) {
        None => failed(WorkError::UnknownAction),
        Some(Action::UpdateIndex) => match index_triple(envelope.data) {
            Some(triple) => StepView {
                stage: StageView::Done,
                commands: acknowledged(triple.0, triple.1, triple.2),
            },
            None => failed(WorkError::DecodeError),
        },
        Some(action) => StepView {
            stage: StageView::AwaitPayload { action, model: envelope.model },
            commands: seq![CommandView::DecodePayload { data: envelope.data }],
        },
    }
}

/// The request put to the handling layer: the envelope's model is the
/// path, the payload's data the body.
pub open spec fn requested(
    action: Action,
    method: Method,
    model: Seq<char>,
    payload: PayloadView,
) -> StepView {
    StepView {
        stage: StageView::AwaitHandler { action, reqid: payload.reqid },
        commands: seq![CommandView::Handle { method, path: model, body: payload.reqdata }],
    }
}

/// The step after the payload was decoded. A verdict is `true` for
/// verified; any other value, or none, rejects the request.
pub open spec fn on_payload(action: Action, model: Seq<char>, payload: Option<PayloadView>) -> StepView {
    match payload {
        None => failed(WorkError::DecodeError),
        Some(payload) => match action {
            Action::Query => requested(action, Method::Get, model, payload),
            Action::Post => requested(action, Method::Post, model, payload),
            Action::CheckPairList => if payload.reqdata == Some("true"@) {
                StepView {
                    stage: StageView::AwaitTentative { reqid: payload.reqid },
                    commands: seq![CommandView::CacheGet { key: tentative_key(payload.reqid) }],
                }
            } else {
                StepView { stage: StageView::Done, commands: rejected(payload.reqid) }
            },
            Action::UpdateIndex => failed(WorkError::UnexpectedReply),
        },
    }
}

/// The last step of a query whose pairs the ledger confirmed: the result
/// body goes into the tentative slot, and only then is the verifier asked.
pub open spec fn settled_query(
    reqid: Seq<char>,
    model: Seq<char>,
    pairs: Pairs,
    body: Seq<char>,
) -> StepView {
    StepView {
        stage: StageView::Done,
        commands: seq![
            stashed(reqid, body),
            published(model, Action::CheckPairList, reqid, pairs),
        ],
    }
}

/// The body an outcome carries; the empty text if it carries none.
pub open spec fn body_of(outcome: HandlerOutcomeView) -> Seq<char> {
    match outcome.result_body {
        Some(body) => body,
        None => Seq::empty(),
    }
}

/// The step after the handler answered a query. Without pairs there is
/// nothing to read from the ledger, and the query is settled at once.
pub open spec fn on_query_handled(reqid: Seq<char>, outcome: Option<HandlerOutcomeView>) -> StepView {
    match outcome {
        None => failed(WorkError::HandlerFailure(Action::Query)),
        Some(outcome) => match outcome.pair_list {
            None => failed(WorkError::MissingPair),
            Some(pairs) => if pairs.len() == 0 {
                settled_query(reqid, outcome.model_name, pairs, body_of(outcome))
            } else {
                StepView {
                    stage: StageView::AwaitLedger {
                        reqid,
                        model: outcome.model_name,
                        pairs,
                        body: body_of(outcome),
                    },
                    commands: seq![
                        CommandView::LedgerQuery { statement: read_of(outcome.model_name, pairs) },
                    ],
                }
            },
        },
    }
}

/// The step after the handler answered a post: the change of the ledger
/// that the outcome's action kind asks for, if it asks for one, then the
/// message to the indexer. Only the first pair counts.
pub open spec fn on_post_handled(reqid: Seq<char>, outcome: Option<HandlerOutcomeView>) -> StepView {
    match outcome {
        None => failed(WorkError::HandlerFailure(Action::Post)),
        Some(outcome) => match outcome.pair_list {
            None => failed(WorkError::MissingPair),
            Some(pairs) => if pairs.len() == 0 {
                failed(WorkError::MissingPair)
            } else {
                let publish = published(outcome.model_name, Action::UpdateIndex, reqid, seq![pairs[0]]);
                StepView {
                    stage: StageView::Done,
                    commands: match Mutation::named_by(outcome.action) {
                        Some(mutation) => seq![
                            CommandView::LedgerExecute {
                                statement: mutation.statement_of(outcome.model_name, pairs[0]),
                            },
                            publish,
                        ],
                        None => seq![publish],
                    },
                }
            },
        },
    }
}

/// The step after the handler answered.
pub open spec fn on_handled(
    action: Action,
    reqid: Seq<char>,
    outcome: Option<HandlerOutcomeView>,
) -> StepView {
    match action {
        Action::Query => on_query_handled(reqid, outcome),
        Action::Post => on_post_handled(reqid, outcome),
        _ => failed(WorkError::UnexpectedReply),
    }
}

/// The rows `(id, hash)` of a reply from the ledger: none if the read
/// failed or a row holds no such pair.
pub open spec fn rows_of(cells: Option<Seq<Seq<CellView>>>) -> Option<Pairs> {
    match cells {
        Some(cells) => rows_read(cells),
        None => None,
    }
}

/// The step after the ledger was read: the query is settled if the rows
/// confirm every pair, and fails otherwise with nothing written.
pub open spec fn on_rows(
    reqid: Seq<char>,
    model: Seq<char>,
    pairs: Pairs,
    body: Seq<char>,
    rows: Option<Pairs>,
) -> StepView {
    match rows {
        None => failed(WorkError::StoreUnavailable),
        Some(rows) => match verdict(pairs, ledger_map(rows)) {
            Ok(_) => settled_query(reqid, model, pairs, body),
            Err(error) => failed(error),
        },
    }
}

/// The step that follows a stage once the caller has replied. A reply that
/// does not answer the stage's question fails the invocation.
pub open spec fn resume(stage: StageView, reply: ReplyView) -> StepView {
    match (stage, reply) {
        (StageView::AwaitPayload { action, model }, ReplyView::Payload(payload)) => on_payload(
            action,
            model,
            payload,
        ),
        (StageView::AwaitHandler { action, reqid }, ReplyView::Handled(outcome)) => on_handled(
            action,
            reqid,
            outcome,
        ),
        (StageView::AwaitLedger { reqid, model, pairs, body }, ReplyView::LedgerRows(cells)) => on_rows(
            reqid,
            model,
            pairs,
            body,
            rows_of(cells),
        ),
        (StageView::AwaitTentative { reqid }, ReplyView::Tentative(value)) => StepView {
            stage: StageView::Done,
            commands: promoted(reqid, value),
        },
        _ => failed(WorkError::UnexpectedReply),
    }
}

/// The step that fails an invocation.
fn fail(error: WorkError) -> (step: Step)
    ensures
        step@ == failed(error),
{
    let step = Step { stage: Stage::Failed(error), commands: Vec::new() };
    assert(step@.commands =~= Seq::empty());
    step
}

/// The command that publishes a message on the one channel.
fn publish(message: Vec<u8>) -> (command: Command)
    ensures
        command@ == (CommandView::Publish { channel: CHANNEL_SPIN2PROXY@, message: message@ }),
{
    Command::Publish { channel: CHANNEL_SPIN2PROXY.to_owned(), message }
}

/// Takes up an envelope.
pub fn start(envelope: InputOutputObject) -> (step: Step)
    ensures
        step@ == begin(envelope@),
        Action::named_by(envelope@.action) is None ==> step@ == failed(WorkError::UnknownAction),
        step@.orderly(),
{
    proof {
        law_first_step_is_orderly(envelope@);
    }
    let InputOutputObject { model, action, data, time: _ } = envelope;
    match Action::recognize(action.as_str()) {
        None => fail(WorkError::UnknownAction),
        Some(Action::UpdateIndex) => match parse_index(data.as_slice()) {
            Ok((reqid, id, hash)) => Step {
                stage: Stage::Done,
                commands: acknowledge(reqid.as_str(), id.as_str(), hash.as_str()),
            },
            Err(_) => fail(WorkError::DecodeError),
        },
        Some(action) => {
            let step = Step {
                stage: Stage::AwaitPayload { action, model },
                commands: vec![Command::DecodePayload { data }],
            };
            assert(step@.commands =~= seq![CommandView::DecodePayload { data: data@ }]);
            step
        },
    }
}

/// The step that puts a request to the handling layer.
fn request(action: Action, method: Method, model: String, payload: Payload) -> (step: Step)
    ensures
        step@ == requested(action, method, model@, payload@),
{
    let Payload { reqid, reqdata } = payload;
    let step = Step {
        stage: Stage::AwaitHandler { action, reqid },
        commands: vec![Command::Handle { method, path: model, body: reqdata }],
    };
    assert(step@.commands =~= requested(action, method, model@, payload@).commands);
    step
}

/// Whether a verdict says that the pairs were verified.
fn is_verified(reqdata: &Option<String>) -> (verified: bool)
    ensures
        verified == (reqdata.deep_view() == Some("true"@)),
{
    match reqdata {
        Some(text) => same_text(text.as_str(), "true"),
        None => false,
    }
}

/// The step after the payload was decoded: the request for the handler,
/// or the settling of the verifier's verdict.
pub fn after_payload(action: Action, model: String, payload: Option<Payload>) -> (step: Step)
    ensures
        step@ == on_payload(
            action,
            model@,
            match payload {
                Some(payload) => Some(payload@),
                None => None,
            },
        ),
{
    let payload = match payload {
        Some(payload) => payload,
        None => {
            return fail(WorkError::DecodeError);
        },
    };
    match action {
        Action::Query => request(action, Method::Get, model, payload),
        Action::Post => request(action, Method::Post, model, payload),
        Action::CheckPairList => {
            if is_verified(&payload.reqdata) {
                let key = make_tentative_key(payload.reqid.as_str());
                let step = Step {
                    stage: Stage::AwaitTentative { reqid: payload.reqid },
                    commands: vec![Command::CacheGet { key }],
                };
                assert(step@.commands =~= seq![
                    CommandView::CacheGet { key: tentative_key(payload@.reqid) },
                ]);
                step
            } else {
                Step { stage: Stage::Done, commands: reject(payload.reqid.as_str()) }
            }
        },
        Action::UpdateIndex => fail(WorkError::UnexpectedReply),
    }
}

/// The last step of a query whose pairs the ledger confirmed.
fn settle_query(reqid: &str, model: &str, pairs: &Vec<(String, String)>, body: &str) -> (step: Step)
    ensures
        step@ == settled_query(reqid@, model@, pairs.deep_view(), body@),
{
    let step = Step {
        stage: Stage::Done,
        commands: vec![stash(reqid, body), publish(tail_query(reqid, model, pairs))],
    };
    assert(step@.commands =~= settled_query(reqid@, model@, pairs.deep_view(), body@).commands);
    step
}

/// The step after the handler answered a query: the read of the ledger
/// for the pairs that the outcome claims.
pub fn after_query_handled(reqid: String, outcome: Option<HandlerOutcome>) -> (step: Step)
    ensures
        step@ == on_query_handled(
            reqid@,
            match outcome {
                Some(outcome) => Some(outcome@),
                None => None,
            },
        ),
{
    let outcome = match outcome {
        Some(outcome) => outcome,
        None => {
            return fail(WorkError::HandlerFailure(Action::Query));
        },
    };
    let ghost seen = outcome@;
    let HandlerOutcome { model_name, action: _, pair_list, result_body } = outcome;
    let pairs = match pair_list {
        Some(pairs) => pairs,
        None => {
            return fail(WorkError::MissingPair);
        },
    };
    let body = match result_body {
        Some(body) => body,
        None => String::new(),
    };
    assert(body@ == body_of(seen));
    if pairs.len() == 0 {
        settle_query(reqid.as_str(), model_name.as_str(), &pairs, body.as_str())
    } else {
        let statement = read_statement(model_name.as_str(), &pairs);
        let step = Step {
            stage: Stage::AwaitLedger { reqid, model: model_name, pairs, body },
            commands: vec![Command::LedgerQuery { statement }],
        };
        assert(step@.commands =~= seq![CommandView::LedgerQuery { statement: statement@ }]);
        step
    }
}

/// The step after the handler answered a post: the change of the ledger
/// and the message to the indexer.
pub fn after_post_handled(reqid: String, outcome: Option<HandlerOutcome>) -> (step: Step)
    ensures
        step@ == on_post_handled(
            reqid@,
            match outcome {
                Some(outcome) => Some(outcome@),
                None => None,
            },
        ),
{
    let outcome = match outcome {
        Some(outcome) => outcome,
        None => {
            return fail(WorkError::HandlerFailure(Action::Post));
        },
    };
    let ghost seen = outcome@;
    let pairs = match &outcome.pair_list {
        Some(pairs) => pairs,
        None => {
            return fail(WorkError::MissingPair);
        },
    };
    if pairs.len() == 0 {
        return fail(WorkError::MissingPair);
    }
    let ghost first = pairs.deep_view()[0];
    assert(first == (pairs@[0].0@, pairs@[0].1@));
    let id = pairs[0].0.as_str();
    let hash = pairs[0].1.as_str();
    let model = outcome.model_name.as_str();
    let single = vec![(id.to_owned(), hash.to_owned())];
    assert(single.deep_view() =~= seq![first]);
    let mut commands: Vec<Command> = Vec::new();
    match Mutation::recognize(outcome.action.as_str()) {
        Some(mutation) => {
            commands.push(Command::LedgerExecute { statement: mutation.statement(model, id, hash) });
        },
        None => {},
    }
    commands.push(publish(tail_post(reqid.as_str(), model, &single)));
    let step = Step { stage: Stage::Done, commands };
    assert(step@.commands =~= on_post_handled(reqid@, Some(seen)).commands);
    step
}

/// The step after the ledger was read: the check of the claimed pairs
/// against the rows and, if it passes, the settling of the query.
pub fn after_rows(
    reqid: String,
    model: String,
    pairs: Vec<(String, String)>,
    body: String,
    rows: Option<Vec<(String, String)>>,
) -> (step: Step)
    ensures
        step@ == on_rows(reqid@, model@, pairs.deep_view(), body@, rows.deep_view()),
        rows matches Some(rows) && all_match(pairs.deep_view(), ledger_map(rows.deep_view())) ==> step@
            == settled_query(reqid@, model@, pairs.deep_view(), body@),
        rows matches Some(rows) && any_mismatch(pairs.deep_view(), ledger_map(rows.deep_view()))
            ==> step@ == failed(WorkError::HashMismatch),
{
    let rows = match rows {
        Some(rows) => rows,
        None => {
            return fail(WorkError::StoreUnavailable);
        },
    };
    match check_pairs(&pairs, &rows) {
        Ok(_) => settle_query(reqid.as_str(), model.as_str(), &pairs, body.as_str()),
        Err(error) => fail(error),
    }
}

/// Takes the caller's reply and gives the next step.
pub fn advance(stage: Stage, reply: Reply) -> (step: Step)
    ensures
        step@ == resume(stage@, reply@),
        step@.orderly(),
        stage@.awaits() ==> step@.stage.replies_left() < stage@.replies_left(),
{
    proof {
        law_next_step_is_orderly(stage@, reply@);
    }
    match (stage, reply) {
        (Stage::AwaitPayload { action, model }, Reply::Payload(payload)) => after_payload(
            action,
            model,
            payload,
        ),
        (Stage::AwaitHandler { action, reqid }, Reply::Handled(outcome)) => match action {
            Action::Query => after_query_handled(reqid, outcome),
            Action::Post => after_post_handled(reqid, outcome),
            _ => fail(WorkError::UnexpectedReply),
        },
        (Stage::AwaitLedger { reqid, model, pairs, body }, Reply::LedgerRows(cells)) => {
            let rows = match cells {
                Some(cells) => read_rows(&cells),
                None => None,
            };
            after_rows(reqid, model, pairs, body, rows)
        },
        (Stage::AwaitTentative { reqid }, Reply::Tentative(value)) => Step {
            stage: Stage::Done,
            commands: promote(reqid.as_str(), value),
        },
        _ => fail(WorkError::UnexpectedReply),
    }
}

} // verus!
