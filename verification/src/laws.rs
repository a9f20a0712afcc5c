//! What holds of the service whatever the table and the requests.

use vstd::prelude::*;
use crate::handler::{
    EditStageView, EditStepView, TITLE_TAKEN, create_statement, edit_statement, edit_step,
    not_found_message, not_found_response,
};
use crate::model::NoteView;
use crate::response::{
    BodyView, Outcome, Status, empty_response, message_response, note_response, notes_response,
};
use crate::schema::{CreateNoteView, FilterOptions, UpdateNoteView};
use crate::service::{created, deleted, edited, fetched, listed};
use crate::store::{DUPLICATE_KEY, SelectPage, StoreFailureView};
use crate::table::{
    TableView, first_where, holds_id, holds_title, inserted_row, lemma_delete_keeps_invariant,
    lemma_first_where, lemma_insert_keeps_invariant, lemma_row_found, lemma_row_missing,
    lemma_update_keeps_invariant, not_after, other_holds_title, page_of, select_outcome, with_id,
};
use crate::text::{hyphenated_text, is_infix, lemma_infix_of_concat};

verus! {

/// Every row's time of update is its time of creation or later.
pub open spec fn times_ordered(rows: Seq<NoteView>) -> bool {
    forall|i: int| 0 <= i < rows.len() ==> (#[trigger] rows[i]).updated_at >= rows[i].created_at
}

/// The body of an edit that names a new title and nothing else.
pub open spec fn title_only(title: Seq<char>) -> UpdateNoteView {
    UpdateNoteView { title: Some(title), content: None, category: None, published: None }
}

/// Every operation keeps the table's invariant.
pub proof fn lemma_operations_keep_invariant(
    table: TableView,
    create: CreateNoteView,
    edit: UpdateNoteView,
    id: u128,
    now: int,
)
    requires
        table.well_formed(),
    ensures
        created(table, create, now).0.well_formed(),
        edited(table, id, edit, now).0.well_formed(),
        deleted(table, id).0.well_formed(),
{
    lemma_insert_keeps_invariant(table, create_statement(create), now);
    lemma_delete_keeps_invariant(table, id);
    if let Ok(note) = select_outcome(table, id) {
        lemma_update_keeps_invariant(table, edit_statement(id, edit, note, now));
    }
}

/// No operation takes back an identifier: the next to give out never
/// decreases, and every identifier in the table lies below it.
pub proof fn lemma_identifiers_only_grow(
    table: TableView,
    create: CreateNoteView,
    edit: UpdateNoteView,
    id: u128,
    now: int,
)
    requires
        table.well_formed(),
    ensures
        created(table, create, now).0.next_id >= table.next_id,
        edited(table, id, edit, now).0.next_id == table.next_id,
        deleted(table, id).0.next_id == table.next_id,
{
}

/// Creating a note with a title that no note has succeeds while identifiers
/// are left: the answer is 201 with a note that has the next identifier,
/// which no note has, the fields of the body and one time for creation and
/// update; and the table holds it.
pub proof fn lemma_create_unused_title(table: TableView, body: CreateNoteView, now: int)
    requires
        table.well_formed(),
        !holds_title(table.rows, body.title),
        table.next_id < u128::MAX,
    ensures
        ({
            let (after, response) = created(table, body, now);
            let note = inserted_row(table.next_id, create_statement(body), now);
            &&& response == note_response(Status::Created, note)
            &&& note.id == table.next_id
            &&& !holds_id(table.rows, note.id)
            &&& note.title == body.title
            &&& note.content == body.content
            &&& note.created_at == now
            &&& note.updated_at == now
            &&& after.rows.len() == table.rows.len() + 1
            &&& select_outcome(after, note.id) == Ok::<NoteView, StoreFailureView>(note)
        }),
{
    let after = created(table, body, now).0;
    let at = first_where(table.rows, not_after(now));
    lemma_first_where(table.rows, not_after(now));
    lemma_insert_keeps_invariant(table, create_statement(body), now);
    lemma_row_missing(table, table.next_id as u128);
    lemma_row_found(after, table.next_id as u128, at);
}

/// Creating a note with a title that a note has is refused with 409, and the
/// table stays as it was.
pub proof fn lemma_create_taken_title(table: TableView, body: CreateNoteView, now: int)
    requires
        holds_title(table.rows, body.title),
    ensures
        created(table, body, now) == (
            table,
            message_response(Status::Conflict, Outcome::Fail, TITLE_TAKEN@),
        ),
{
    lemma_infix_of_concat(
        "error returned from database: "@,
        DUPLICATE_KEY@,
        " \"notes_title_key\""@,
    );
}

/// Of two creations with one title, where the first succeeds, the second is
/// refused with 409 and adds no row.
pub proof fn lemma_create_twice(
    table: TableView,
    first: CreateNoteView,
    second: CreateNoteView,
    first_now: int,
    second_now: int,
)
    requires
        table.well_formed(),
        first.title == second.title,
        created(table, first, first_now).1.status == Status::Created,
    ensures
        ({
            let (once, _) = created(table, first, first_now);
            created(once, second, second_now) == (
                once,
                message_response(Status::Conflict, Outcome::Fail, TITLE_TAKEN@),
            )
        }),
{
    let once = created(table, first, first_now).0;
    lemma_infix_of_concat(
        "error returned from database: "@,
        DUPLICATE_KEY@,
        " \"notes_title_key\""@,
    );
    let at = first_where(table.rows, not_after(first_now));
    lemma_first_where(table.rows, not_after(first_now));
    assert(once.rows[at].title == second.title);
    lemma_create_taken_title(once, second, second_now);
}

/// A note that was created is the note that a lookup of its identifier
/// gives: it has the title and the content of the body, the body's category
/// or the empty text, and is not published. (A creation does not store the
/// body's `published`, so bodies that ask for a published note are left out.)
pub proof fn lemma_get_after_create(table: TableView, body: CreateNoteView, now: int)
    requires
        table.well_formed(),
        created(table, body, now).1.status == Status::Created,
        body.published != Some(true),
    ensures
        ({
            let (after, response) = created(table, body, now);
            &&& response.body matches BodyView::Note { note }
            &&& fetched(after, note.id) == note_response(Status::Okay, note)
            &&& note.title == body.title
            &&& note.content == body.content
            &&& note.category == Some(
                match body.category {
                    Some(category) => category,
                    None => Seq::empty(),
                },
            )
            &&& note.published == Some(
                match body.published {
                    Some(published) => published,
                    None => false,
                },
            )
        }),
{
    lemma_infix_of_concat(
        "error returned from database: "@,
        DUPLICATE_KEY@,
        " \"notes_title_key\""@,
    );
    lemma_create_unused_title(table, body, now);
}

/// Looking up an identifier that no note has gives 404 with a message that
/// holds the identifier in its hyphenated form.
pub proof fn lemma_get_missing(table: TableView, id: u128)
    requires
        !holds_id(table.rows, id),
    ensures
        fetched(table, id) == not_found_response(id),
        fetched(table, id).status == Status::NotFound,
        is_infix(hyphenated_text(id), not_found_message(id)),
{
    lemma_infix_of_concat("Note with ID: "@, hyphenated_text(id), " not found"@);
}

/// An edit that names only a new title, which no other note has, answers 200
/// with the note under its new title: content, category, published flag,
/// identifier and time of creation are as before, and the time of update is
/// `now`. A lookup then gives that note.
pub proof fn lemma_edit_title_only(table: TableView, id: u128, title: Seq<char>, now: int)
    requires
        table.well_formed(),
        holds_id(table.rows, id),
        !other_holds_title(table.rows, first_where(table.rows, with_id(id)), title),
    ensures
        ({
            let before = select_outcome(table, id)->Ok_0;
            let (after, response) = edited(table, id, title_only(title), now);
            &&& response.status == Status::Okay
            &&& response.body matches BodyView::Note { note }
            &&& note.id == id
            &&& note.title == title
            &&& note.content == before.content
            &&& note.category == before.category
            &&& note.published == before.published
            &&& note.created_at == before.created_at
            &&& note.updated_at == now
            &&& fetched(after, id) == note_response(Status::Okay, note)
        }),
{
    let at = first_where(table.rows, with_id(id));
    lemma_first_where(table.rows, with_id(id));
    lemma_update_keeps_invariant(
        table,
        edit_statement(id, title_only(title), table.rows[at], now),
    );
    lemma_row_found(edited(table, id, title_only(title), now).0, id, at);
}

/// Under the conditions of `lemma_edit_title_only`, a clock that has moved on
/// since the last update moves the note's time of update strictly forward.
pub proof fn lemma_edit_advances_time(table: TableView, id: u128, title: Seq<char>, now: int)
    requires
        table.well_formed(),
        holds_id(table.rows, id),
        !other_holds_title(table.rows, first_where(table.rows, with_id(id)), title),
        now > select_outcome(table, id)->Ok_0.updated_at,
    ensures
        ({
            let before = select_outcome(table, id)->Ok_0;
            let (_, response) = edited(table, id, title_only(title), now);
            &&& response.body matches BodyView::Note { note }
            &&& note.updated_at > before.updated_at
        }),
{
    lemma_edit_title_only(table, id, title, now);
}

/// An edit of an identifier that no note has answers 404 and writes
/// nothing: once the lookup has failed, the next step is the response.
pub proof fn lemma_edit_missing(table: TableView, id: u128, body: UpdateNoteView, now: int)
    requires
        !holds_id(table.rows, id),
    ensures
        edited(table, id, body, now) == (table, not_found_response(id)),
        edit_step(id, body, EditStageView::Fetched(select_outcome(table, id)), now)
            == EditStepView::Respond(not_found_response(id)),
{
}

/// An edit writes only once the lookup has given the note, and then it
/// writes to the identifier of the request.
pub proof fn lemma_edit_writes_after_lookup(
    id: u128,
    body: UpdateNoteView,
    stage: EditStageView,
    now: int,
)
    ensures
        edit_step(id, body, stage, now) matches EditStepView::Write(statement) ==> {
            &&& stage matches EditStageView::Fetched(Ok(_))
            &&& statement.id == id
            &&& statement.updated_at == now
        },
{
}

/// An edit changes neither the identifier nor the time of creation of a note.
pub proof fn lemma_edit_keeps_identity(table: TableView, id: u128, body: UpdateNoteView, now: int)
    requires
        table.well_formed(),
    ensures
        ({
            let (after, response) = edited(table, id, body, now);
            response.body matches BodyView::Note { note } ==> {
                &&& select_outcome(table, id) matches Ok(before)
                &&& note.id == before.id
                &&& note.id == id
                &&& note.created_at == before.created_at
                &&& note.updated_at == now
            }
        }),
{
    lemma_first_where(table.rows, with_id(id));
}

/// A listing gives the rows from the requested offset on, as many as the
/// requested limit at most, and they stand newest first.
pub proof fn lemma_listing_newest_first(table: TableView, options: Option<FilterOptions>)
    requires
        table.well_formed(),
    ensures
        listed(table, options).status == Status::Okay,
        listed(table, options).body matches BodyView::Notes { results, notes } && {
            &&& results == notes.len()
            &&& notes.len() <= crate::handler::requested_limit(options)
            &&& forall|i: int, j: int|
                0 <= i < j < notes.len() ==> (#[trigger] notes[i]).created_at >= (
                #[trigger] notes[j]).created_at
        },
{
}

/// With one note per page, the second page of a table of two notes or more
/// holds the second newest note alone.
pub proof fn lemma_second_page_of_one(table: TableView)
    requires
        table.well_formed(),
        table.rows.len() >= 2,
    ensures
        listed(table, Some((FilterOptions { page: Some(2), limit: Some(1) })))
            == notes_response(seq![table.rows[1]]),
        table.rows[0].created_at >= table.rows[1].created_at,
        forall|i: int|
            2 <= i < table.rows.len() ==> table.rows[1].created_at >= (
            #[trigger] table.rows[i]).created_at,
{
    let options = Some((FilterOptions { page: Some(2), limit: Some(1) }));
    assert(crate::handler::requested_limit(options) == 1);
    assert(page_of(table.rows, 1, 1) =~= seq![table.rows[1]]);
}

/// Deleting a note that is there answers 204 without a body, and a lookup of
/// its identifier then gives 404.
pub proof fn lemma_get_after_delete(table: TableView, id: u128)
    requires
        table.well_formed(),
        holds_id(table.rows, id),
    ensures
        deleted(table, id).1 == empty_response(Status::NoContent),
        deleted(table, id).0.rows.len() == table.rows.len() - 1,
        fetched(deleted(table, id).0, id) == not_found_response(id),
{
    let after = deleted(table, id).0;
    lemma_first_where(table.rows, with_id(id));
    lemma_row_missing(after, id);
}

/// Deleting an identifier that no note has answers 404 and leaves the table
/// as it was.
pub proof fn lemma_delete_missing(table: TableView, id: u128)
    requires
        !holds_id(table.rows, id),
    ensures
        deleted(table, id) == (table, not_found_response(id)),
{
}

/// Times of update stay at or after times of creation: a creation and a
/// deletion keep that, and so does an edit whose clock does not stand before
/// the creation of the note that it changes.
pub proof fn lemma_times_stay_ordered(
    table: TableView,
    create: CreateNoteView,
    edit: UpdateNoteView,
    id: u128,
    now: int,
)
    requires
        table.well_formed(),
        times_ordered(table.rows),
    ensures
        times_ordered(created(table, create, now).0.rows),
        times_ordered(deleted(table, id).0.rows),
        (select_outcome(table, id) matches Ok(note) ==> now >= note.created_at) ==> times_ordered(
            edited(table, id, edit, now).0.rows,
        ),
{
    lemma_first_where(table.rows, not_after(now));
    lemma_first_where(table.rows, with_id(id));
}

} // verus!
