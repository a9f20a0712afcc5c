//! The operations of the service, carried out on the in-memory table.
//!
//! Each operation sends the statements of its handler to the table and gives
//! the handler's response. What an operation does is a function of the table
//! before it, the request and, where a note is stamped, the time.

use vstd::prelude::*;
use crate::handler::{
    EditStage, EditStep, create_note_handler, create_note_statement, create_response,
    create_statement, delete_note_handler, delete_response, edit_note_step, edit_response,
    edit_statement, get_note_handler, get_response, list_response, list_statement,
    missing_response, note_list_handler, note_list_statement,
};
use crate::model::NoteId;
use crate::response::{Response, ResponseView};
use crate::schema::{
    CreateNoteSchema, CreateNoteView, FilterOptions, UpdateNoteSchema, UpdateNoteView,
};
use crate::store::row_view;
use crate::table::{
    NoteTable, TableView, delete_outcome, insert_outcome, select_outcome, select_page_outcome,
    update_outcome,
};

verus! {

/// The table after a creation at time `now`, and the response.
pub open spec fn created(table: TableView, body: CreateNoteView, now: int) -> (
    TableView,
    ResponseView,
) {
    let (after, answer) = insert_outcome(table, create_statement(body), now);
    (after, create_response(answer))
}

/// The response to a listing.
pub open spec fn listed(table: TableView, options: Option<FilterOptions>) -> ResponseView {
    list_response(select_page_outcome(table, list_statement(options)))
}

/// The response to a lookup.
pub open spec fn fetched(table: TableView, id: u128) -> ResponseView {
    get_response(id, select_outcome(table, id))
}

/// The table after an edit at time `now`, and the response: without the
/// note nothing is written.
pub open spec fn edited(table: TableView, id: u128, body: UpdateNoteView, now: int) -> (
    TableView,
    ResponseView,
) {
    match select_outcome(table, id) {
        Ok(note) => {
            let (after, answer) = update_outcome(table, edit_statement(id, body, note, now));
            (after, edit_response(id, answer))
        },
        Err(failure) => (table, missing_response(id, failure)),
    }
}

/// The table after a deletion, and the response.
pub open spec fn deleted(table: TableView, id: u128) -> (TableView, ResponseView) {
    let (after, answer) = delete_outcome(table, id);
    (after, delete_response(id, answer))
}

/// Creates the note of `body`, stamped with `now`.
pub fn create_note(table: &mut NoteTable, body: &CreateNoteSchema, now: i64) -> (response:
    Response)
    requires
        old(table).wf(),
    ensures
        final(table).wf(),
        (final(table)@, response@) == created(old(table)@, body@, now as int),
{
    let answer = table.insert(create_note_statement(body), now);
    create_note_handler(answer)
}

/// Lists the page of `options`, newest note first.
pub fn list_notes(table: &NoteTable, options: Option<FilterOptions>) -> (response: Response)
    ensures
        response@ == listed(table@, options),
{
    let answer = table.select_page(note_list_statement(options));
    note_list_handler(answer)
}

/// Looks the note `id` up.
pub fn get_note(table: &NoteTable, id: NoteId) -> (response: Response)
    ensures
        response@ == fetched(table@, id.value),
{
    let answer = table.select(id);
    get_note_handler(id, answer)
}

/// How many statements an edit at `stage` has sent.
pub open spec fn sent(stage: EditStage) -> int {
    match stage {
        EditStage::Start => 0,
        EditStage::Fetched(_) => 1,
        EditStage::Written(_) => 2,
    }
}

/// Lays `body` over the note `id`, stamped with `now`.
pub fn edit_note(
    table: &mut NoteTable,
    id: NoteId,
    body: &UpdateNoteSchema,
    now: i64,
) -> (response: Response)
    requires
        old(table).wf(),
    ensures
        final(table).wf(),
        (final(table)@, response@) == edited(old(table)@, id.value, body@, now as int),
{
    let ghost before = table@;
    let mut stage = EditStage::Start;
    loop
        invariant
            table.wf(),
            before == old(table)@,
            before.well_formed(),
            stage is Start ==> table@ == before,
            stage matches EditStage::Fetched(answer) ==> table@ == before && row_view(answer)
                == select_outcome(before, id.value),
            stage matches EditStage::Written(answer) ==> select_outcome(before, id.value) is Ok
                && (table@, row_view(answer)) == update_outcome(
                before,
                edit_statement(
                    id.value,
                    body@,
                    select_outcome(before, id.value)->Ok_0,
                    now as int,
                ),
            ),
        decreases 2 - sent(stage),
    {
        match edit_note_step(id, body, stage, now) {
            EditStep::Fetch(which) => {
                stage = EditStage::Fetched(table.select(which));
            },
            EditStep::Write(statement) => {
                stage = EditStage::Written(table.update(statement));
            },
            EditStep::Respond(response) => {
                return response;
            },
        }
    }
}

/// Deletes the note `id`.
pub fn delete_note(table: &mut NoteTable, id: NoteId) -> (response: Response)
    requires
        old(table).wf(),
    ensures
        final(table).wf(),
        (final(table)@, response@) == deleted(old(table)@, id.value),
{
    let answer = table.delete(id);
    delete_note_handler(id, answer)
}

} // verus!
