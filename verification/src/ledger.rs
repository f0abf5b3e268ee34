//! The hash ledger: one `<model>_idhash(id, hash)` table per model.
//!
//! This module words the statements that read and change a table, with
//! every id and hash as a bound parameter, and checks the pairs that a
//! query claims against the rows that were read.

use crate::error::WorkError;
use crate::text::{decimal, push_decimal, same_text};
use vstd::hash_map::StringHashMap;
use crate::model::{Pair, Pairs, Table};
use vstd::prelude::*;
use vstd::string::StringExecFns;

verus! {

/// A statement for the relational store and the values bound to its
/// placeholders `$1`, `$2`, and so on, in that order.
#[derive(Clone, Debug, PartialEq, Eq)]
pub struct Statement {
    /// The statement, with placeholders in place of values.
    pub text: String,
    /// The value of each placeholder.
    pub params: Vec<String>,
}

/// What a statement holds, as mathematical values.
pub ghost struct StatementView {
    pub text: Seq<char>,
    pub params: Seq<Seq<char>>,
}

impl View for Statement {
    type V = StatementView;

    open spec fn view(&self) -> StatementView {
        StatementView { text: self.text@, params: self.params.deep_view() }
    }
}

/// The name of the hash table of `model`.
pub open spec fn table_name(model: Seq<char>) -> Seq<char> {
    model + "_idhash"@
}

/// The placeholders `$1,$2,..` up to `$n`, separated by commas.
pub open spec fn placeholders(n: nat) -> Seq<char>
    decreases n,
{
    if n == 0 {
        Seq::empty()
    } else if n == 1 {
        "$"@ + decimal(1)
    } else {
        placeholders((n - 1) as nat) + ","@ + "$"@ + decimal(n)
    }
}

/// The ids of a pair list, in order.
pub open spec fn ids_of(pairs: Pairs) -> Seq<Seq<char>> {
    Seq::new(pairs.len(), |i: int| pairs[i].0)
}

/// The batched read of the hashes of the ids of `pairs`.
pub open spec fn read_of(model: Seq<char>, pairs: Pairs) -> StatementView {
    StatementView {
        text: "select id, hash from "@ + table_name(model) + " where id in ("@
            + placeholders(pairs.len()) + ")"@,
        params: ids_of(pairs),
    }
}

/// Words the one batched read that fetches the ledger's hash for every id
/// of `pairs`.
pub fn read_statement(model: &str, pairs: &Vec<(String, String)>) -> (statement: Statement)
    ensures
        statement@ == read_of(model@, pairs.deep_view()),
{
    let mut text = String::new();
    text.append("select id, hash from ");
    text.append(model);
    text.append("_idhash");
    text.append(" where id in (");
    let ghost head = text@;
    let mut params: Vec<String> = Vec::new();
    let mut i: usize = 0;
    while i < pairs.len()
        invariant
            i <= pairs.len(),
            text@ == head + placeholders(i as nat),
            params.len() == i,
            forall|k: int| 0 <= k < i ==> (#[trigger] params@[k])@ == pairs@[k].0@,
        decreases pairs.len() - i,
    {
        let ghost before = params@;
        if i > 0 {
            text.append(",");
        }
        text.append("$");
        push_decimal(&mut text, (i + 1) as u64);
        params.push(pairs[i].0.clone());
        assert forall|k: int| 0 <= k < i + 1 implies (#[trigger] params@[k])@ == pairs@[k].0@ by {
            if k < i {
                assert(params@[k] == before[k]);
            }
        }
        assert(text@ =~= head + placeholders((i + 1) as nat));
        i += 1;
    }
    text.append(")");
    let statement = Statement { text, params };
    proof {
        assert(statement@.text =~= read_of(model@, pairs.deep_view()).text);
        assert(statement@.params =~= ids_of(pairs.deep_view()));
    }
    statement
}

/// A change of one row of a hash table.
#[derive(Clone, Copy, Debug, PartialEq, Eq, Structural)]
pub enum Mutation {
    /// Add the row `(id, hash)`.
    Insert,
    /// Set the hash of the row with the id.
    Update,
    /// Remove the row with the id.
    Delete,
}

impl Mutation {
    /// The change that an action kind of a handler's outcome asks for.
    /// Every kind but `new`, `update` and `delete` asks for none.
    pub open spec fn named_by(kind: Seq<char>) -> Option<Mutation> {
        if kind == "new"@ {
            Some(Mutation::Insert)
        } else if kind == "update"@ {
            Some(Mutation::Update)
        } else if kind == "delete"@ {
            Some(Mutation::Delete)
        } else {
            None
        }
    }

    /// Reads the action kind of a handler's outcome.
    pub fn recognize(kind: &str) -> (mutation: Option<Mutation>)
        ensures
            mutation == Mutation::named_by(kind@),
    {
        if same_text(kind, "new") {
            Some(Mutation::Insert)
        } else if same_text(kind, "update") {
            Some(Mutation::Update)
        } else if same_text(kind, "delete") {
            Some(Mutation::Delete)
        } else {
            None
        }
    }

    /// The statement of this change on the table of `model`. The id is
    /// bound to `$1`; where a hash is written it is bound to `$2`.
    pub open spec fn statement_of(self, model: Seq<char>, pair: Pair) -> StatementView {
        match self {
            Mutation::Insert => StatementView {
                text: "insert into "@ + table_name(model) + " values ($1, $2)"@,
                params: seq![pair.0, pair.1],
            },
            Mutation::Update => StatementView {
                text: "update "@ + table_name(model) + " set hash = $2 where id = $1"@,
                params: seq![pair.0, pair.1],
            },
            Mutation::Delete => StatementView {
                text: "delete from "@ + table_name(model) + " where id = $1"@,
                params: seq![pair.0],
            },
        }
    }

    /// Words the statement of this change on the table of `model`.
    pub fn statement(self, model: &str, id: &str, hash: &str) -> (statement: Statement)
        ensures
            statement@ == self.statement_of(model@, (id@, hash@)),
    {
        let mut text = String::new();
        let mut params: Vec<String> = Vec::new();
        params.push(id.to_owned());
        match self {
            Mutation::Insert => {
                text.append("insert into ");
                text.append(model);
                text.append("_idhash");
                text.append(" values ($1, $2)");
                params.push(hash.to_owned());
            },
            Mutation::Update => {
                text.append("update ");
                text.append(model);
                text.append("_idhash");
                text.append(" set hash = $2 where id = $1");
                params.push(hash.to_owned());
            },
            Mutation::Delete => {
                text.append("delete from ");
                text.append(model);
                text.append("_idhash");
                text.append(" where id = $1");
            },
        }
        let statement = Statement { text, params };
        proof {
            let want = self.statement_of(model@, (id@, hash@));
            assert(statement@.text =~= want.text);
            assert(statement@.params =~= want.params);
        }
        statement
    }

    /// The table after this change of the row of `pair`. A row is known by
    /// its id, so an insert over a present id replaces its hash.
    pub open spec fn apply(self, ledger: Table, pair: Pair) -> Table {
        match self {
            Mutation::Insert => ledger.insert(pair.0, pair.1),
            Mutation::Update => if ledger.contains_key(pair.0) {
                ledger.insert(pair.0, pair.1)
            } else {
                ledger
            },
            Mutation::Delete => ledger.remove(pair.0),
        }
    }
}

/// One value of a row that the relational store hands back.
#[derive(Clone, Debug, PartialEq, Eq)]
pub enum Cell {
    /// A text.
    Text(String),
    /// A value of any other kind, or none.
    Other,
}

/// What a cell holds, as a mathematical value.
pub ghost enum CellView {
    Text(Seq<char>),
    Other,
}

impl View for Cell {
    type V = CellView;

    open spec fn view(&self) -> CellView {
        match self {
            Cell::Text(text) => CellView::Text(text@),
            Cell::Other => CellView::Other,
        }
    }
}

impl DeepView for Cell {
    type V = CellView;

    open spec fn deep_view(&self) -> CellView {
        self@
    }
}

/// The `(id, hash)` that a row holds: its first two values, if both are
/// texts.
pub open spec fn row_pair(row: Seq<CellView>) -> Option<Pair> {
    if row.len() >= 2 && row[0] is Text && row[1] is Text {
        Some((row[0]->Text_0, row[1]->Text_0))
    } else {
        None
    }
}

/// The `(id, hash)` of every row, in order, if every row holds one.
pub open spec fn rows_read(cells: Seq<Seq<CellView>>) -> Option<Pairs> {
    if forall|i: int| 0 <= i < cells.len() ==> row_pair(#[trigger] cells[i]) is Some {
        Some(Seq::new(cells.len(), |i: int| row_pair(cells[i])->0))
    } else {
        None
    }
}

/// Reads the `(id, hash)` of every row of a read. One row that holds no
/// such pair spoils the read.
pub fn read_rows(cells: &Vec<Vec<Cell>>) -> (rows: Option<Vec<(String, String)>>)
    ensures
        rows.deep_view() == rows_read(cells.deep_view()),
{
    let ghost all = cells.deep_view();
    let mut rows: Vec<(String, String)> = Vec::new();
    let mut i: usize = 0;
    while i < cells.len()
        invariant
            i <= cells.len(),
            all == cells.deep_view(),
            rows.len() == i,
            forall|k: int|
                0 <= k < i ==> row_pair(#[trigger] all[k]) == Some((rows@[k].0@, rows@[k].1@)),
        decreases cells.len() - i,
    {
        let row = &cells[i];
        let ghost seen = all[i as int];
        assert(seen == row.deep_view());
        if row.len() < 2 {
            assert(row_pair(all[i as int]) is None);
            return None;
        }
        assert(seen[0] == row@[0]@ && seen[1] == row@[1]@);
        let pair = match (&row[0], &row[1]) {
            (Cell::Text(id), Cell::Text(hash)) => (id.clone(), hash.clone()),
            _ => {
                assert(row_pair(all[i as int]) is None);
                return None;
            },
        };
        let ghost before = rows@;
        rows.push(pair);
        assert forall|k: int| 0 <= k < i + 1 implies row_pair(#[trigger] all[k]) == Some(
            (rows@[k].0@, rows@[k].1@),
        ) by {
            if k < i {
                assert(rows@[k] == before[k]);
            }
        }
        i += 1;
    }
    proof {
        assert(rows_read(all) is Some);
        assert(rows.deep_view() =~= rows_read(all)->0);
    }
    Some(rows)
}

/// The rows as the store hands them back: two texts each.
pub open spec fn cells_of(rows: Pairs) -> Seq<Seq<CellView>> {
    Seq::new(rows.len(), |i: int| seq![CellView::Text(rows[i].0), CellView::Text(rows[i].1)])
}

/// Rows of two texts each are read as they are.
pub proof fn lemma_cells_are_read(rows: Pairs)
    ensures
        rows_read(cells_of(rows)) == Some(rows),
{
    let cells = cells_of(rows);
    assert forall|i: int| 0 <= i < cells.len() implies row_pair(#[trigger] cells[i]) == Some(
        rows[i],
    ) by {
        assert(cells[i] == seq![CellView::Text(rows[i].0), CellView::Text(rows[i].1)]);
    }
    assert(rows_read(cells)->0 =~= rows);
}

/// The mapping from id to hash that a sequence of rows gives. Where an id
/// occurs in several rows, the last one counts.
pub open spec fn ledger_map(rows: Pairs) -> Table
    decreases rows.len(),
{
    if rows.len() == 0 {
        Map::empty()
    } else {
        ledger_map(rows.drop_last()).insert(rows.last().0, rows.last().1)
    }
}

/// The ledger records exactly this hash for the id of the pair.
pub open spec fn pair_matches(ledger: Table, pair: Pair) -> bool {
    ledger.contains_key(pair.0) && ledger[pair.0] == pair.1
}

/// The ledger records another hash for the id of the pair.
pub open spec fn pair_mismatches(ledger: Table, pair: Pair) -> bool {
    ledger.contains_key(pair.0) && ledger[pair.0] != pair.1
}

/// The ledger has no row for the id of the pair.
pub open spec fn pair_unknown(ledger: Table, pair: Pair) -> bool {
    !ledger.contains_key(pair.0)
}

/// Some pair of the list has a hash that the ledger contradicts.
pub open spec fn any_mismatch(pairs: Pairs, ledger: Table) -> bool {
    exists|i: int| 0 <= i < pairs.len() && pair_mismatches(ledger, #[trigger] pairs[i])
}

/// Some pair of the list has an id that the ledger lacks.
pub open spec fn any_unknown(pairs: Pairs, ledger: Table) -> bool {
    exists|i: int| 0 <= i < pairs.len() && pair_unknown(ledger, #[trigger] pairs[i])
}

/// Every pair of the list is recorded in the ledger with the claimed hash.
pub open spec fn all_match(pairs: Pairs, ledger: Table) -> bool {
    forall|i: int| 0 <= i < pairs.len() ==> pair_matches(ledger, #[trigger] pairs[i])
}

/// The outcome of checking a pair list against the ledger. One mismatch
/// anywhere fails the whole list with `HashMismatch`; without a mismatch,
/// one missing id fails it with `LookupFailure`; otherwise every pair
/// matches and the list passes.
pub open spec fn verdict(pairs: Pairs, ledger: Table) -> Result<(), WorkError> {
    if any_mismatch(pairs, ledger) {
        Err(WorkError::HashMismatch)
    } else if any_unknown(pairs, ledger) {
        Err(WorkError::LookupFailure)
    } else {
        Ok(())
    }
}

/// The check passes exactly on the lists whose every pair matches.
pub proof fn lemma_verdict_passes_iff_all_match(pairs: Pairs, ledger: Table)
    ensures
        verdict(pairs, ledger) is Ok <==> all_match(pairs, ledger),
{
    if all_match(pairs, ledger) {
        assert(!any_mismatch(pairs, ledger));
        assert(!any_unknown(pairs, ledger));
    } else {
        let i = choose|i: int| 0 <= i < pairs.len() && !pair_matches(ledger, #[trigger] pairs[i]);
        if pair_unknown(ledger, pairs[i]) {
            assert(any_unknown(pairs, ledger));
        } else {
            assert(pair_mismatches(ledger, pairs[i]));
            assert(any_mismatch(pairs, ledger));
        }
    }
}

/// The rows of a read tell of each of the ids what the ledger holds.
pub open spec fn reflects(
    rows: Pairs,
    ledger: Table,
    ids: Seq<Seq<char>>,
) -> bool {
    forall|i: int|
        0 <= i < ids.len() ==> {
            let id = #[trigger] ids[i];
            &&& ledger_map(rows).contains_key(id) == ledger.contains_key(id)
            &&& ledger.contains_key(id) ==> ledger_map(rows)[id] == ledger[id]
        }
}

/// An executable table agrees with a mapping from id to hash.
pub open spec fn mirrors(table: Map<Seq<char>, String>, ledger: Table) -> bool {
    &&& table.dom() == ledger.dom()
    &&& forall|id: Seq<char>| #[trigger] table.contains_key(id) ==> table[id]@ == ledger[id]
}

/// Builds the mapping from id to hash of the rows that were read.
fn index_rows(rows: &Vec<(String, String)>) -> (table: StringHashMap<String>)
    ensures
        mirrors(table@, ledger_map(rows.deep_view())),
{
    let ghost all = rows.deep_view();
    let mut table: StringHashMap<String> = StringHashMap::new();
    let mut i: usize = 0;
    assert(table@.dom() =~= ledger_map(all.take(0)).dom());
    while i < rows.len()
        invariant
            i <= rows.len(),
            all == rows.deep_view(),
            mirrors(table@, ledger_map(all.take(i as int))),
        decreases rows.len() - i,
    {
        let ghost before = table@;
        let ghost done = ledger_map(all.take(i as int));
        let ghost next = all.take(i as int + 1);
        let id = rows[i].0.clone();
        let hash = rows[i].1.clone();
        table.insert(id, hash);
        proof {
            assert(next.drop_last() =~= all.take(i as int));
            assert(next.last() == (rows@[i as int].0@, rows@[i as int].1@));
            assert(ledger_map(next) == done.insert(rows@[i as int].0@, rows@[i as int].1@));
            assert(table@.dom() =~= ledger_map(next).dom());
            assert forall|k: Seq<char>| #[trigger] table@.contains_key(k) implies table@[k]@
                == ledger_map(next)[k] by {
                if k != rows@[i as int].0@ {
                    assert(before.contains_key(k));
                }
            }
        }
        i += 1;
    }
    proof {
        assert(all.take(rows.len() as int) =~= all);
    }
    table
}

/// Checks the pairs that a query claims against the rows read from the
/// ledger. The check fails closed: it passes only if the ledger records
/// every id with exactly the claimed hash.
pub fn check_pairs(
    pairs: &Vec<(String, String)>,
    rows: &Vec<(String, String)>,
) -> (outcome: Result<(), WorkError>)
    ensures
        outcome == verdict(pairs.deep_view(), ledger_map(rows.deep_view())),
        outcome is Ok <==> all_match(pairs.deep_view(), ledger_map(rows.deep_view())),
        any_mismatch(pairs.deep_view(), ledger_map(rows.deep_view())) ==> outcome == Err::<
            (),
            WorkError,
        >(WorkError::HashMismatch),
{
    proof {
        lemma_verdict_passes_iff_all_match(pairs.deep_view(), ledger_map(rows.deep_view()));
    }
    let table = index_rows(rows);
    let ghost all = pairs.deep_view();
    let ghost ledger = ledger_map(rows.deep_view());
    let mut unknown = false;
    let mut i: usize = 0;
    while i < pairs.len()
        invariant
            i <= pairs.len(),
            all == pairs.deep_view(),
            ledger == ledger_map(rows.deep_view()),
            mirrors(table@, ledger),
            forall|k: int| 0 <= k < i ==> !pair_mismatches(ledger, #[trigger] all[k]),
            unknown == (exists|k: int| 0 <= k < i && pair_unknown(ledger, #[trigger] all[k])),
        decreases pairs.len() - i,
    {
        let ghost pair = all[i as int];
        assert(pair == (pairs@[i as int].0@, pairs@[i as int].1@));
        match table.get(pairs[i].0.as_str()) {
            Some(hash) => {
                assert(table@.contains_key(pair.0));
                assert(ledger.contains_key(pair.0));
                if *hash != pairs[i].1 {
                    assert(pair_mismatches(ledger, all[i as int]));
                    assert(any_mismatch(all, ledger));
                    return Err(WorkError::HashMismatch);
                }
            },
            None => {
                assert(!table@.contains_key(pair.0));
                assert(pair_unknown(ledger, all[i as int]));
                unknown = true;
            },
        }
        i += 1;
    }
    if unknown {
        Err(WorkError::LookupFailure)
    } else {
        Ok(())
    }
}

} // verus!
