//! The notes table held in memory.
//!
//! The table answers the five statements of the handlers as the relational
//! store does: identifiers are given out by the table and never used twice,
//! titles are unique, and rows are kept newest first.

use vstd::prelude::*;
use crate::model::{NoteId, NoteModel, NoteView, rows_view};
use crate::store::{
    DUPLICATE_KEY, FailureKind, InsertNote, InsertView, SelectPage, StoreFailure,
    StoreFailureView, UpdateNote, UpdateView, count_view, page_view, row_view,
};

verus! {

/// The message of a statement that found no row.
pub const NO_ROW: &'static str =
    "no rows returned by a query that expected to return at least one row";

/// The words of the failure for a table that has given out every identifier.
pub const NO_IDENTIFIER_LEFT: &'static str =
    "error returned from database: no identifier is left for a new note";

/// The words of the failure for a negative limit.
pub const NEGATIVE_LIMIT: &'static str =
    "error returned from database: LIMIT must not be negative";

/// The words of the failure for a negative offset.
pub const NEGATIVE_OFFSET: &'static str =
    "error returned from database: OFFSET must not be negative";

/// The table, as mathematical values: its rows, newest first, and the
/// identifier that the next new note gets.
pub struct TableView {
    pub rows: Seq<NoteView>,
    pub next_id: int,
}

/// The test for a row with identifier `id`.
pub open spec fn with_id(id: u128) -> spec_fn(NoteView) -> bool {
    |row: NoteView| row.id == id
}

/// The test for a row that was created at `now` or before.
pub open spec fn not_after(now: int) -> spec_fn(NoteView) -> bool {
    |row: NoteView| row.created_at <= now
}

/// The index of the first row that passes `test`; the number of rows where
/// none does.
pub open spec fn first_where(rows: Seq<NoteView>, test: spec_fn(NoteView) -> bool) -> int
    decreases rows.len(),
{
    if rows.len() == 0 || test(rows[0]) {
        0
    } else {
        1 + first_where(rows.drop_first(), test)
    }
}

/// Some row has identifier `id`.
pub open spec fn holds_id(rows: Seq<NoteView>, id: u128) -> bool {
    exists|i: int| 0 <= i < rows.len() && (#[trigger] rows[i]).id == id
}

/// Some row has title `title`.
pub open spec fn holds_title(rows: Seq<NoteView>, title: Seq<char>) -> bool {
    exists|i: int| 0 <= i < rows.len() && (#[trigger] rows[i]).title == title
}

/// Some row other than the one at `index` has title `title`.
pub open spec fn other_holds_title(rows: Seq<NoteView>, index: int, title: Seq<char>) -> bool {
    exists|i: int| 0 <= i < rows.len() && i != index && (#[trigger] rows[i]).title == title
}

impl TableView {
    /// The table's invariant: identifiers and titles are unique, every
    /// identifier in use lies below the next to give out, rows stand newest
    /// first, and every row has a category and a published flag.
    pub open spec fn well_formed(self) -> bool {
        &&& 0 <= self.next_id <= u128::MAX
        &&& forall|i: int| 0 <= i < self.rows.len() ==> (#[trigger] self.rows[i]).id < self.next_id
        &&& forall|i: int, j: int|
            0 <= i < j < self.rows.len() ==> (#[trigger] self.rows[i]).id != (
            #[trigger] self.rows[j]).id
        &&& forall|i: int, j: int|
            0 <= i < j < self.rows.len() ==> (#[trigger] self.rows[i]).title != (
            #[trigger] self.rows[j]).title
        &&& forall|i: int, j: int|
            0 <= i < j < self.rows.len() ==> (#[trigger] self.rows[i]).created_at >= (
            #[trigger] self.rows[j]).created_at
        &&& forall|i: int|
            0 <= i < self.rows.len() ==> (#[trigger] self.rows[i]).category is Some
                && self.rows[i].published is Some
    }
}

/// The failure of a statement that found no row.
pub open spec fn missing_row() -> StoreFailureView {
    StoreFailureView { kind: FailureKind::RowNotFound, message: NO_ROW@, detail: "RowNotFound"@ }
}

/// The failure of a statement in so many words.
pub open spec fn refusal(words: Seq<char>) -> StoreFailureView {
    StoreFailureView { kind: FailureKind::Other, message: words, detail: words }
}

/// The words of the failure for a title that another note has.
pub open spec fn duplicate_title_words() -> Seq<char> {
    "error returned from database: "@ + DUPLICATE_KEY@ + " \"notes_title_key\""@
}


/// The row that an insertion makes.
pub open spec fn inserted_row(id: int, statement: InsertView, now: int) -> NoteView {
    NoteView {
        id: id as u128,
        title: statement.title,
        content: statement.content,
        category: Some(statement.category),
        published: Some(false),
        created_at: now,
        updated_at: now,
    }
}

/// The table after an insertion, and the answer: the new row, which gets the
/// next identifier and `now` as both times and stands before every row that
/// is not newer; or a failure, which leaves the table as it was.
pub open spec fn insert_outcome(table: TableView, statement: InsertView, now: int) -> (
    TableView,
    Result<NoteView, StoreFailureView>,
) {
    if holds_title(table.rows, statement.title) {
        (table, Err(refusal(duplicate_title_words())))
    } else if table.next_id >= u128::MAX {
        (table, Err(refusal(NO_IDENTIFIER_LEFT@)))
    } else {
        let row = inserted_row(table.next_id, statement, now);
        let at = first_where(table.rows, not_after(now));
        (TableView { rows: table.rows.insert(at, row), next_id: table.next_id + 1 }, Ok(row))
    }
}

/// The rows from `offset` on, `limit` of them at most.
pub open spec fn page_of(rows: Seq<NoteView>, limit: int, offset: int) -> Seq<NoteView> {
    let from = if offset < rows.len() {
        offset
    } else {
        rows.len() as int
    };
    let to = if offset + limit < rows.len() {
        offset + limit
    } else {
        rows.len() as int
    };
    rows.subrange(from, to)
}

/// The answer to a selection of a page.
pub open spec fn select_page_outcome(table: TableView, statement: SelectPage) -> Result<
    Seq<NoteView>,
    StoreFailureView,
> {
    if statement.limit < 0 {
        Err(refusal(NEGATIVE_LIMIT@))
    } else if statement.offset < 0 {
        Err(refusal(NEGATIVE_OFFSET@))
    } else {
        Ok(page_of(table.rows, statement.limit as int, statement.offset as int))
    }
}

/// The answer to a selection by identifier.
pub open spec fn select_outcome(table: TableView, id: u128) -> Result<NoteView, StoreFailureView> {
    if holds_id(table.rows, id) {
        Ok(table.rows[first_where(table.rows, with_id(id))])
    } else {
        Err(missing_row())
    }
}

/// The row that an update makes of `row`.
pub open spec fn updated_row(row: NoteView, statement: UpdateView) -> NoteView {
    NoteView {
        id: row.id,
        title: statement.title,
        content: statement.content,
        category: Some(statement.category),
        published: Some(statement.published),
        created_at: row.created_at,
        updated_at: statement.updated_at,
    }
}

/// The table after an update, and the answer: the row as it now is; or a
/// failure, which leaves the table as it was.
pub open spec fn update_outcome(table: TableView, statement: UpdateView) -> (
    TableView,
    Result<NoteView, StoreFailureView>,
) {
    let at = first_where(table.rows, with_id(statement.id));
    if !holds_id(table.rows, statement.id) {
        (table, Err(missing_row()))
    } else if other_holds_title(table.rows, at, statement.title) {
        (table, Err(refusal(duplicate_title_words())))
    } else {
        let row = updated_row(table.rows[at], statement);
        (TableView { rows: table.rows.update(at, row), next_id: table.next_id }, Ok(row))
    }
}

/// The table after a deletion, and the number of rows removed.
pub open spec fn delete_outcome(table: TableView, id: u128) -> (
    TableView,
    Result<int, StoreFailureView>,
) {
    if holds_id(table.rows, id) {
        let at = first_where(table.rows, with_id(id));
        (TableView { rows: table.rows.remove(at), next_id: table.next_id }, Ok(1))
    } else {
        (table, Ok(0))
    }
}

/// `first_where` is within the rows, no row before it passes the test, and
/// the row at it does.
pub proof fn lemma_first_where(rows: Seq<NoteView>, test: spec_fn(NoteView) -> bool)
    ensures
        0 <= first_where(rows, test) <= rows.len(),
        forall|k: int| 0 <= k < first_where(rows, test) ==> !test(#[trigger] rows[k]),
        first_where(rows, test) < rows.len() ==> test(rows[first_where(rows, test)]),
    decreases rows.len(),
{
    if rows.len() != 0 && !test(rows[0]) {
        let rest = rows.drop_first();
        lemma_first_where(rest, test);
        assert forall|k: int| 0 <= k < first_where(rows, test) implies !test(
            #[trigger] rows[k],
        ) by {
            if k > 0 {
                assert(rows[k] == rest[k - 1]);
            }
        }
    }
}

/// An index with no passing row before it, and a passing row at it if any,
/// is `first_where`.
pub proof fn lemma_first_where_is(rows: Seq<NoteView>, test: spec_fn(NoteView) -> bool, at: int)
    requires
        0 <= at <= rows.len(),
        forall|k: int| 0 <= k < at ==> !test(#[trigger] rows[k]),
        at < rows.len() ==> test(rows[at]),
    ensures
        first_where(rows, test) == at,
{
    lemma_first_where(rows, test);
}

/// The first row with identifier `id` is within the rows where a row has
/// that identifier, and only there.
pub proof fn lemma_first_with_id(rows: Seq<NoteView>, id: u128)
    ensures
        0 <= first_where(rows, with_id(id)) <= rows.len(),
        holds_id(rows, id) <==> first_where(rows, with_id(id)) < rows.len(),
        holds_id(rows, id) ==> rows[first_where(rows, with_id(id))].id == id,
{
    lemma_first_where(rows, with_id(id));
    let at = first_where(rows, with_id(id));
    if at < rows.len() {
        assert(with_id(id)(rows[at]));
    } else {
        assert forall|k: int| 0 <= k < rows.len() implies (#[trigger] rows[k]).id != id by {
            assert(!with_id(id)(rows[k]));
        }
    }
}

/// In a well-formed table the row with identifier `id` is the one that a
/// selection by `id` returns.
pub proof fn lemma_row_found(table: TableView, id: u128, at: int)
    requires
        table.well_formed(),
        0 <= at < table.rows.len(),
        table.rows[at].id == id,
    ensures
        holds_id(table.rows, id),
        first_where(table.rows, with_id(id)) == at,
        select_outcome(table, id) == Ok::<NoteView, StoreFailureView>(table.rows[at]),
{
    lemma_first_where_is(table.rows, with_id(id), at);
}

/// Where no row has identifier `id`, a selection by `id` finds none.
pub proof fn lemma_row_missing(table: TableView, id: u128)
    requires
        forall|k: int| 0 <= k < table.rows.len() ==> (#[trigger] table.rows[k]).id != id,
    ensures
        !holds_id(table.rows, id),
        select_outcome(table, id) == Err::<NoteView, StoreFailureView>(missing_row()),
{
    lemma_first_where_is(table.rows, with_id(id), table.rows.len() as int);
}

/// An insertion keeps the table's invariant: the new row stands after the
/// rows that are newer and before those that are not.
pub proof fn lemma_insert_keeps_invariant(table: TableView, statement: InsertView, now: int)
    requires
        table.well_formed(),
    ensures
        insert_outcome(table, statement, now).0.well_formed(),
{
    lemma_first_where(table.rows, not_after(now));
}

/// An update keeps the table's invariant.
pub proof fn lemma_update_keeps_invariant(table: TableView, statement: UpdateView)
    requires
        table.well_formed(),
    ensures
        update_outcome(table, statement).0.well_formed(),
{
    lemma_first_where(table.rows, with_id(statement.id));
}

/// A deletion keeps the table's invariant.
pub proof fn lemma_delete_keeps_invariant(table: TableView, id: u128)
    requires
        table.well_formed(),
    ensures
        delete_outcome(table, id).0.well_formed(),
{
    lemma_first_where(table.rows, with_id(id));
}

/// The notes table.
#[derive(Debug)]
pub struct NoteTable {
    rows: Vec<NoteModel>,
    next_id: u128,
}

impl View for NoteTable {
    type V = TableView;

    closed spec fn view(&self) -> TableView {
        TableView { rows: rows_view(self.rows@), next_id: self.next_id as int }
    }
}

fn refuse(words: String) -> (failure: StoreFailure)
    ensures
        failure@ == refusal(words@),
{
    let detail = words.clone();
    StoreFailure { kind: FailureKind::Other, message: words, detail }
}

fn no_row() -> (failure: StoreFailure)
    ensures
        failure@ == missing_row(),
{
    StoreFailure {
        kind: FailureKind::RowNotFound,
        message: NO_ROW.to_owned(),
        detail: "RowNotFound".to_owned(),
    }
}

fn duplicate_title() -> (failure: StoreFailure)
    ensures
        failure@ == refusal(duplicate_title_words()),
{
    let mut words = "error returned from database: ".to_owned();
    words.append(DUPLICATE_KEY);
    words.append(" \"notes_title_key\"");
    refuse(words)
}

impl NoteTable {
    /// The table's invariant holds.
    pub open spec fn wf(&self) -> bool {
        self@.well_formed()
    }

    /// An empty table, whose first note gets identifier 1.
    pub fn new() -> (table: NoteTable)
        ensures
            table.wf(),
            table@.rows.len() == 0,
            table@.next_id == 1,
    {
        NoteTable { rows: Vec::new(), next_id: 1 }
    }

    /// The number of rows.
    pub fn len(&self) -> (rows: usize)
        ensures
            rows == self@.rows.len(),
    {
        self.rows.len()
    }

    /// The index of the first row with identifier `id`.
    fn find(&self, id: NoteId) -> (at: usize)
        ensures
            at == first_where(self@.rows, with_id(id.value)),
            at <= self.rows@.len(),
            at < self.rows@.len() <==> holds_id(self@.rows, id.value),
    {
        let mut at: usize = 0;
        while at < self.rows.len() && self.rows[at].id.value != id.value
            invariant
                at <= self.rows@.len(),
                forall|k: int| 0 <= k < at ==> !with_id(id.value)(#[trigger] self@.rows[k]),
            decreases self.rows@.len() - at,
        {
            at += 1;
        }
        proof {
            lemma_first_where_is(self@.rows, with_id(id.value), at as int);
            lemma_first_with_id(self@.rows, id.value);
        }
        at
    }

    /// Tells whether a row other than the one at `index` has title `title`.
    fn title_in_use(&self, index: usize, title: &String) -> (used: bool)
        ensures
            used == other_holds_title(self@.rows, index as int, title@),
    {
        let mut i: usize = 0;
        while i < self.rows.len()
            invariant
                i <= self.rows@.len(),
                forall|k: int|
                    0 <= k < i && k != index ==> (#[trigger] self@.rows[k]).title != title@,
            decreases self.rows@.len() - i,
        {
            if i != index && self.rows[i].title == *title {
                assert(self@.rows[i as int].title == title@);
                return true;
            }
            i += 1;
        }
        false
    }

    /// Inserts a note and returns its row, stamped with `now`.
    pub fn insert(&mut self, statement: InsertNote, now: i64) -> (answer: Result<
        NoteModel,
        StoreFailure,
    >)
        requires
            old(self).wf(),
        ensures
            final(self).wf(),
            (final(self)@, row_view(answer)) == insert_outcome(
                old(self)@,
                statement@,
                now as int,
            ),
    {
        let len = self.rows.len();
        let taken = self.title_in_use(len, &statement.title);
        if taken {
            return Err(duplicate_title());
        }
        if self.next_id == u128::MAX {
            return Err(refuse(NO_IDENTIFIER_LEFT.to_owned()));
        }
        let mut at: usize = 0;
        while at < self.rows.len() && self.rows[at].created_at > now
            invariant
                at <= self.rows@.len(),
                forall|k: int| 0 <= k < at ==> !not_after(now as int)(#[trigger] self@.rows[k]),
            decreases self.rows@.len() - at,
        {
            at += 1;
        }
        let row = NoteModel {
            id: NoteId { value: self.next_id },
            title: statement.title,
            content: statement.content,
            category: Some(statement.category),
            published: Some(false),
            created_at: now,
            updated_at: now,
        };
        let copy = row.duplicate();
        proof {
            lemma_first_where_is(self@.rows, not_after(now as int), at as int);
            lemma_insert_keeps_invariant(self@, statement@, now as int);
            assert(rows_view(self.rows@.insert(at as int, row)) =~= rows_view(self.rows@).insert(
                at as int,
                row@,
            ));
        }
        self.rows.insert(at, row);
        self.next_id = self.next_id + 1;
        Ok(copy)
    }

    /// Returns the rows from `statement.offset` on, `statement.limit` of them at
    /// most, newest first.
    pub fn select_page(&self, statement: SelectPage) -> (answer: Result<
        Vec<NoteModel>,
        StoreFailure,
    >)
        ensures
            page_view(answer) == select_page_outcome(self@, statement),
    {
        if statement.limit < 0 {
            return Err(refuse(NEGATIVE_LIMIT.to_owned()));
        }
        if statement.offset < 0 {
            return Err(refuse(NEGATIVE_OFFSET.to_owned()));
        }
        let len = self.rows.len();
        let limit = statement.limit as u64;
        let offset = statement.offset as u64;
        let from: usize = if offset < len as u64 {
            offset as usize
        } else {
            len
        };
        let to: usize = if offset < len as u64 && limit < len as u64 - offset {
            (offset + limit) as usize
        } else {
            len
        };
        let mut page: Vec<NoteModel> = Vec::new();
        let mut i: usize = from;
        while i < to
            invariant
                from <= i <= to <= self.rows@.len(),
                page@.len() == i - from,
                forall|k: int| 0 <= k < page@.len() ==> page@[k]@ == self.rows@[from + k]@,
            decreases to - i,
        {
            page.push(self.rows[i].duplicate());
            i += 1;
        }
        assert(rows_view(page@) =~= page_of(
            self@.rows,
            statement.limit as int,
            statement.offset as int,
        ));
        Ok(page)
    }

    /// Returns the row with identifier `id`.
    pub fn select(&self, id: NoteId) -> (answer: Result<NoteModel, StoreFailure>)
        ensures
            row_view(answer) == select_outcome(self@, id.value),
    {
        let at = self.find(id);
        if at < self.rows.len() {
            Ok(self.rows[at].duplicate())
        } else {
            Err(no_row())
        }
    }

    /// Overwrites the row with identifier `statement.id` and returns it.
    pub fn update(&mut self, statement: UpdateNote) -> (answer: Result<NoteModel, StoreFailure>)
        requires
            old(self).wf(),
        ensures
            final(self).wf(),
            (final(self)@, row_view(answer)) == update_outcome(old(self)@, statement@),
    {
        let at = self.find(statement.id);
        if at >= self.rows.len() {
            return Err(no_row());
        }
        if self.title_in_use(at, &statement.title) {
            return Err(duplicate_title());
        }
        let row = NoteModel {
            id: self.rows[at].id,
            title: statement.title,
            content: statement.content,
            category: Some(statement.category),
            published: Some(statement.published),
            created_at: self.rows[at].created_at,
            updated_at: statement.updated_at,
        };
        let copy = row.duplicate();
        proof {
            lemma_update_keeps_invariant(self@, statement@);
            assert(rows_view(self.rows@.update(at as int, row)) =~= rows_view(self.rows@).update(
                at as int,
                row@,
            ));
        }
        self.rows.set(at, row);
        Ok(copy)
    }

    /// Removes the row with identifier `id` and returns the number of rows
    /// removed.
    pub fn delete(&mut self, id: NoteId) -> (answer: Result<u64, StoreFailure>)
        requires
            old(self).wf(),
        ensures
            final(self).wf(),
            (final(self)@, count_view(answer)) == delete_outcome(old(self)@, id.value),
    {
        let at = self.find(id);
        if at >= self.rows.len() {
            return Ok(0);
        }
        proof {
            lemma_delete_keeps_invariant(self@, id.value);
            assert(rows_view(self.rows@.remove(at as int)) =~= rows_view(self.rows@).remove(
                at as int,
            ));
        }
        self.rows.remove(at);
        Ok(1)
    }
}

} // verus!
