//! The mathematical model of a period-scoped record and of the table that keeps it.
//!
//! A record belongs to one period of one year: a week for a goal, a day for an
//! objective. The table holds at most one row per period and year. The types of
//! the library are described by these values.

use crate::error::StorageError;
use crate::text::trimmed;
use vstd::prelude::*;

verus! {

/// One row of a period table.
pub struct Row {
    pub period: int,
    pub year: int,
    pub text: Seq<char>,
}

impl Row {
    /// Whether the row belongs to this period of this year.
    pub open spec fn has_key(self, period: int, year: int) -> bool {
        self.period == period && self.year == year
    }
}

/// A row on its way to the store, to be written with insert-or-replace.
#[derive(Debug, Clone, PartialEq, Eq)]
pub struct Upsert {
    pub period: u32,
    pub year: i32,
    pub text: String,
}

impl View for Upsert {
    type V = Row;

    open spec fn view(&self) -> Row {
        Row { period: self.period as int, year: self.year as int, text: self.text@ }
    }
}

impl DeepView for Upsert {
    type V = Row;

    open spec fn deep_view(&self) -> Row {
        self@
    }
}

/// A record in memory: its row, and whether the store already holds it.
pub struct Record {
    pub text: Seq<char>,
    pub period: int,
    pub year: int,
    pub persisted: bool,
}

impl Record {
    /// A record that only exists in memory so far.
    pub open spec fn draft(text: Seq<char>, period: int, year: int) -> Record {
        Record { text, period, year, persisted: false }
    }

    /// A record as the store returned it.
    pub open spec fn on_record(text: Seq<char>, period: int, year: int) -> Record {
        Record { text, period, year, persisted: true }
    }

    /// The row that holds the record.
    pub open spec fn row(self) -> Row {
        Row { period: self.period, year: self.year, text: self.text }
    }

    /// The row that a save has to write: none once the record is persisted.
    pub open spec fn pending(self) -> Option<Row> {
        if self.persisted {
            None
        } else {
            Some(self.row())
        }
    }

    /// The record after the outcome of its pending write is known.
    pub open spec fn settled(self, outcome: Result<(), StorageError>) -> Record {
        if !self.persisted && outcome is Ok {
            Record { persisted: true, ..self }
        } else {
            self
        }
    }

    /// What a save reports: success at once for a persisted record, else the
    /// outcome of the write.
    pub open spec fn report(self, outcome: Result<(), StorageError>) -> Result<(), StorageError> {
        if self.persisted {
            Ok(())
        } else {
            outcome
        }
    }

    /// The record for a period, given what the lookup returned and, where it
    /// returned nothing, what the user answered.
    pub open spec fn resolved(found: Option<Seq<char>>, answer: Seq<char>, period: int, year: int)
        -> Record {
        match found {
            Some(text) => Record::on_record(text, period, year),
            None => Record::draft(trimmed(answer), period, year),
        }
    }
}

/// The rows of a period table in the order they were written, and the number
/// of writes made so far.
pub struct Table {
    pub rows: Seq<Row>,
    pub writes: nat,
}

/// Number of rows with the given key.
pub open spec fn count(rows: Seq<Row>, period: int, year: int) -> nat
    decreases rows.len(),
{
    if rows.len() == 0 {
        0
    } else if rows.last().has_key(period, year) {
        1 + count(rows.drop_last(), period, year)
    } else {
        count(rows.drop_last(), period, year)
    }
}

/// The text of the latest row with the given key.
pub open spec fn lookup(rows: Seq<Row>, period: int, year: int) -> Option<Seq<char>>
    decreases rows.len(),
{
    if rows.len() == 0 {
        None
    } else if rows.last().has_key(period, year) {
        Some(rows.last().text)
    } else {
        lookup(rows.drop_last(), period, year)
    }
}

/// The rows without those of the given key.
pub open spec fn without(rows: Seq<Row>, period: int, year: int) -> Seq<Row>
    decreases rows.len(),
{
    if rows.len() == 0 {
        rows
    } else if rows.last().has_key(period, year) {
        without(rows.drop_last(), period, year)
    } else {
        without(rows.drop_last(), period, year).push(rows.last())
    }
}

impl Table {
    /// No key has two rows.
    pub open spec fn unique(self) -> bool {
        forall|period: int, year: int| #[trigger] count(self.rows, period, year) <= 1
    }

    /// What a lookup of the key returns.
    pub open spec fn find(self, period: int, year: int) -> Option<Seq<char>> {
        lookup(self.rows, period, year)
    }

    /// Insert-or-replace: the row takes the place of any row with its key.
    pub open spec fn upsert(self, row: Row) -> Table {
        Table {
            rows: without(self.rows, row.period, row.year).push(row),
            writes: self.writes + 1,
        }
    }

    /// The table after the write that a save asks for, if it asks for one.
    pub open spec fn written(self, pending: Option<Row>) -> Table {
        match pending {
            Some(row) => self.upsert(row),
            None => self,
        }
    }
}

/// A whole save against a store that accepts every write: the record asks for
/// its pending write, the store makes it, the record settles.
pub open spec fn save(record: Record, table: Table) -> (Record, Table) {
    (record.settled(Ok(())), table.written(record.pending()))
}

/// Taking the rows of one key away leaves none of that key and does not touch
/// the rows of any other.
pub proof fn lemma_without(rows: Seq<Row>, period: int, year: int, p: int, y: int)
    ensures
        count(without(rows, period, year), p, y) == if p == period && y == year {
            0
        } else {
            count(rows, p, y)
        },
        !(p == period && y == year) ==> lookup(without(rows, period, year), p, y) == lookup(
            rows,
            p,
            y,
        ),
    decreases rows.len(),
{
    if rows.len() > 0 {
        lemma_without(rows.drop_last(), period, year, p, y);
        if !rows.last().has_key(period, year) {
            let rest = without(rows.drop_last(), period, year);
            assert(rest.push(rows.last()).drop_last() == rest);
        }
    }
}

/// A key has a row exactly when a lookup finds a text for it.
pub proof fn lemma_lookup_finds_rows(rows: Seq<Row>, period: int, year: int)
    ensures
        lookup(rows, period, year) is Some <==> count(rows, period, year) > 0,
    decreases rows.len(),
{
    if rows.len() > 0 {
        lemma_lookup_finds_rows(rows.drop_last(), period, year);
    }
}

/// What an upsert does to every key: the written key has exactly one row, with
/// the written text, and every other key has what it had.
pub proof fn lemma_upsert(table: Table, row: Row, p: int, y: int)
    ensures
        table.upsert(row).writes == table.writes + 1,
        count(table.upsert(row).rows, row.period, row.year) == 1,
        table.upsert(row).find(row.period, row.year) == Some(row.text),
        !row.has_key(p, y) ==> count(table.upsert(row).rows, p, y) == count(table.rows, p, y),
        !row.has_key(p, y) ==> table.upsert(row).find(p, y) == table.find(p, y),
{
    let rest = without(table.rows, row.period, row.year);
    assert(rest.push(row).drop_last() == rest);
    lemma_without(table.rows, row.period, row.year, row.period, row.year);
    lemma_without(table.rows, row.period, row.year, p, y);
}

/// An upsert keeps the table free of duplicate keys.
pub proof fn lemma_upsert_keeps_unique(table: Table, row: Row)
    requires
        table.unique(),
    ensures
        table.upsert(row).unique(),
{
    assert forall|p: int, y: int| #[trigger] count(table.upsert(row).rows, p, y) <= 1 by {
        lemma_upsert(table, row, p, y);
        assert(count(table.rows, p, y) <= 1);
    }
}

/// Saving a draft twice in a row writes once, and leaves exactly one row for
/// the key of the draft: the one with its text. The second save changes nothing.
pub proof fn law_save_twice_writes_once(record: Record, table: Table)
    requires
        !record.persisted,
    ensures
        ({
            let (first, once) = save(record, table);
            let (second, twice) = save(first, once);
            &&& twice.writes == table.writes + 1
            &&& count(twice.rows, record.period, record.year) == 1
            &&& twice.find(record.period, record.year) == Some(record.text)
            &&& twice == once
            &&& second == first
            &&& second.persisted
        }),
{
    lemma_upsert(table, record.row(), record.period, record.year);
}

/// Once a save has succeeded, another save writes nothing, even if the text in
/// memory was changed in between: the store keeps what the first save wrote.
pub proof fn law_saved_record_is_not_rewritten(record: Record, table: Table, edited: Seq<char>)
    ensures
        ({
            let (first, once) = save(record, table);
            let changed = Record { text: edited, ..first };
            let (second, twice) = save(changed, once);
            &&& changed.pending() is None
            &&& twice == once
            &&& second == changed
            &&& !record.persisted ==> twice.find(record.period, record.year) == Some(record.text)
        }),
{
    lemma_upsert(table, record.row(), record.period, record.year);
}

/// A record becomes persisted by a write that succeeded and by nothing else. A
/// failed write leaves a draft as it was, so that the save can be tried again,
/// and a persisted record stays as it is, whatever is reported to it.
pub proof fn law_persisted_once_and_for_good(record: Record, outcome: Result<(), StorageError>)
    ensures
        record.settled(outcome).persisted == (record.persisted || outcome is Ok),
        outcome is Err ==> record.settled(outcome) == record,
        record.persisted ==> record.settled(outcome) == record && record.report(outcome) is Ok,
        !record.persisted ==> record.report(outcome) == outcome,
        (Record { persisted: record.settled(outcome).persisted, ..record }) == record.settled(
            outcome,
        ),
{
}

/// What was saved is found again: a lookup of the period of a draft, after
/// the draft was saved, returns its text, and the record made of what the
/// lookup returned is the saved one. Nobody has to be asked.
pub proof fn law_saved_record_is_found_again(record: Record, table: Table, answer: Seq<char>)
    requires
        !record.persisted,
    ensures
        ({
            let (saved, after) = save(record, table);
            let found = after.find(record.period, record.year);
            &&& found == Some(record.text)
            &&& Record::resolved(found, answer, record.period, record.year) == saved
        }),
{
    lemma_upsert(table, record.row(), record.period, record.year);
}

/// The year is part of the key: rows of the same period in different years are
/// different rows. Writing one after the other leaves both in the table, each
/// exactly once and with its own text.
pub proof fn law_years_keep_records_apart(a: Row, b: Row, table: Table)
    requires
        a.year != b.year,
    ensures
        !a.has_key(b.period, b.year),
        !b.has_key(a.period, a.year),
        ({
            let both = table.upsert(a).upsert(b);
            &&& both.find(a.period, a.year) == Some(a.text)
            &&& both.find(b.period, b.year) == Some(b.text)
            &&& count(both.rows, a.period, a.year) == 1
            &&& count(both.rows, b.period, b.year) == 1
        }),
{
    let first = table.upsert(a);
    lemma_upsert(table, a, a.period, a.year);
    lemma_upsert(first, b, a.period, a.year);
    lemma_upsert(first, b, b.period, b.year);
}

/// Looking a period up, asking only where nothing was found, and saving: the
/// store then has exactly one row for the period. If it had one before, the
/// answer plays no part, nothing is written and the record is the one found. If
/// it had none, the row is the trimmed answer and was written once.
pub proof fn law_lookup_then_save(table: Table, answer: Seq<char>, period: int, year: int)
    requires
        table.unique(),
    ensures
        ({
            let found = table.find(period, year);
            let record = Record::resolved(found, answer, period, year);
            let (saved, after) = save(record, table);
            &&& saved.persisted
            &&& after.find(period, year) == Some(record.text)
            &&& count(after.rows, period, year) == 1
            &&& after.unique()
            &&& found matches Some(text) ==> record.text == text && after == table
            &&& found is None ==> record.text == trimmed(answer) && after.writes == table.writes + 1
        }),
{
    let found = table.find(period, year);
    let record = Record::resolved(found, answer, period, year);
    lemma_lookup_finds_rows(table.rows, period, year);
    assert(count(table.rows, period, year) <= 1);
    if found is None {
        lemma_upsert(table, record.row(), period, year);
        lemma_upsert_keeps_unique(table, record.row());
    }
}

} // verus!
