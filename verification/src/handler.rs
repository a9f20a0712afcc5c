//! The handlers: one per operation on notes.
//!
//! A handler never talks to the store. It says which statement to send and,
//! given the store's answer, which response to give. Editing takes two
//! statements and is a small state machine.
//!
//! Failures of the store are answered by one policy. A store that did not
//! answer in time gives 504. Otherwise the operations that write (create,
//! edit, delete) give 500 with the failure in full, a listing gives 500 with
//! a fixed message, and a lookup gives 404.
//!
//! An edit reads the note and then writes it, and nothing holds the row in
//! between: of two edits at once the later write wins, and a row deleted in
//! between is reported as a note that was not found.

use vstd::prelude::*;
use crate::model::{NoteId, NoteModel, NoteView};
use crate::response::{
    Body, Outcome, Response, ResponseView, Status, empty_response, message_response,
    note_response, notes_response,
};
use crate::schema::{
    CreateNoteSchema, CreateNoteView, FilterOptions, UpdateNoteSchema, UpdateNoteView,
};
use crate::store::{
    DUPLICATE_KEY, FailureKind, InsertNote, InsertView, SelectPage, StoreFailure,
    StoreFailureView, UpdateNote, UpdateView, count_view, page_view, row_view,
};
use crate::text::{contains, hyphenated, hyphenated_text, is_infix};

verus! {

/// The message of the health check.
pub const HEALTH_MESSAGE: &'static str =
    "Building a simple CRUD API with Rust, SQLX, Postgres,and Axum";

/// The message of a conflict on the title.
pub const TITLE_TAKEN: &'static str = "Note with that title already exists";

/// The message of a listing that failed.
pub const LIST_FAILED: &'static str = "Something bad happened while fetching all note items";

/// The message of a statement that the store did not answer in time.
pub const STORE_TIMED_OUT: &'static str = "The store did not answer in time";

/// The message of a deletion that removed more than the one note.
pub const MANY_REMOVED: &'static str = "More than one note was removed";

/// The number of notes on a page when the request names none.
pub const DEFAULT_LIMIT: usize = 10;

/// The response of the health check.
pub open spec fn health_response() -> ResponseView {
    message_response(Status::Okay, Outcome::Success, HEALTH_MESSAGE@)
}

/// The message that names a note that was not found.
pub open spec fn not_found_message(id: u128) -> Seq<char> {
    "Note with ID: "@ + hyphenated_text(id) + " not found"@
}

/// The response for a note that was not found.
pub open spec fn not_found_response(id: u128) -> ResponseView {
    message_response(Status::NotFound, Outcome::Fail, not_found_message(id))
}

/// The response for a store that did not answer in time.
pub open spec fn timeout_response() -> ResponseView {
    message_response(Status::GatewayTimeout, Outcome::Error, STORE_TIMED_OUT@)
}

/// The response for a failure of the store on a write: 504 where the store
/// did not answer in time, 500 with the failure in full otherwise.
pub open spec fn failure_response(failure: StoreFailureView) -> ResponseView {
    if failure.kind == FailureKind::TimedOut {
        timeout_response()
    } else {
        message_response(Status::InternalServerError, Outcome::Error, failure.detail)
    }
}

/// The insertion for a creation body: an absent category becomes the empty text,
/// and `published` is left to the store's default.
pub open spec fn create_statement(body: CreateNoteView) -> InsertView {
    InsertView {
        title: body.title,
        content: body.content,
        category: match body.category {
            Some(category) => category,
            None => Seq::empty(),
        },
    }
}

/// The response to a creation, for each answer of the store: 201 with the
/// note; 409 where the failure's message holds the words of a broken
/// uniqueness constraint; the response to a failed write otherwise.
pub open spec fn create_response(answer: Result<NoteView, StoreFailureView>) -> ResponseView {
    match answer {
        Ok(note) => note_response(Status::Created, note),
        Err(failure) => if failure.kind != FailureKind::TimedOut && is_infix(
            DUPLICATE_KEY@,
            failure.message,
        ) {
            message_response(Status::Conflict, Outcome::Fail, TITLE_TAKEN@)
        } else {
            failure_response(failure)
        },
    }
}

/// The number of notes per page that a listing asks for.
pub open spec fn requested_limit(options: Option<FilterOptions>) -> int {
    match options {
        Some(FilterOptions { limit: Some(limit), .. }) => limit as int,
        _ => DEFAULT_LIMIT as int,
    }
}

/// The page that a listing asks for: the first where none or page 0 is named.
pub open spec fn requested_page(options: Option<FilterOptions>) -> int {
    match options {
        Some(FilterOptions { page: Some(page), .. }) => if page < 1 {
            1
        } else {
            page as int
        },
        _ => 1,
    }
}

/// The number of notes that a listing skips.
pub open spec fn requested_offset(options: Option<FilterOptions>) -> int {
    (requested_page(options) - 1) * requested_limit(options)
}

/// A count as the store takes it: the largest that it takes, where the count is larger.
pub open spec fn saturated(count: int) -> i64 {
    if count > i64::MAX {
        i64::MAX
    } else {
        count as i64
    }
}

/// The selection for a listing.
pub open spec fn list_statement(options: Option<FilterOptions>) -> SelectPage {
    SelectPage {
        limit: saturated(requested_limit(options)),
        offset: saturated(requested_offset(options)),
    }
}

/// The response to a listing, for each answer of the store.
pub open spec fn list_response(answer: Result<Seq<NoteView>, StoreFailureView>) -> ResponseView {
    match answer {
        Ok(notes) => notes_response(notes),
        Err(failure) => if failure.kind == FailureKind::TimedOut {
            timeout_response()
        } else {
            message_response(Status::InternalServerError, Outcome::Error, LIST_FAILED@)
        },
    }
}

/// The response for a lookup that gave no row: 504 where the store did not
/// answer in time, 404 naming the note otherwise.
pub open spec fn missing_response(id: u128, failure: StoreFailureView) -> ResponseView {
    if failure.kind == FailureKind::TimedOut {
        timeout_response()
    } else {
        not_found_response(id)
    }
}

/// The response to a lookup, for each answer of the store.
pub open spec fn get_response(id: u128, answer: Result<NoteView, StoreFailureView>)
    -> ResponseView {
    match answer {
        Ok(note) => note_response(Status::Okay, note),
        Err(failure) => missing_response(id, failure),
    }
}

/// The response to a deletion, for each answer of the store.
pub open spec fn delete_response(id: u128, answer: Result<int, StoreFailureView>)
    -> ResponseView {
    match answer {
        Ok(rows) => if rows == 1 {
            empty_response(Status::NoContent)
        } else if rows == 0 {
            not_found_response(id)
        } else {
            message_response(Status::InternalServerError, Outcome::Error, MANY_REMOVED@)
        },
        Err(failure) => failure_response(failure),
    }
}

/// The text to store where the body may name one and the row may hold one.
pub open spec fn merged_text(given: Option<Seq<char>>, stored: Option<Seq<char>>) -> Seq<char> {
    match given {
        Some(text) => text,
        None => match stored {
            Some(text) => text,
            None => Seq::empty(),
        },
    }
}

/// The flag to store where the body may name one and the row may hold one.
pub open spec fn merged_flag(given: Option<bool>, stored: Option<bool>) -> bool {
    match given {
        Some(flag) => flag,
        None => match stored {
            Some(flag) => flag,
            None => false,
        },
    }
}

/// The update that lays an edit body over the stored note: a field that the
/// body leaves out keeps the stored value, and `updated_at` becomes `now`.
pub open spec fn edit_statement(id: u128, body: UpdateNoteView, note: NoteView, now: int)
    -> UpdateView {
    UpdateView {
        id,
        title: merged_text(body.title, Some(note.title)),
        content: merged_text(body.content, Some(note.content)),
        category: merged_text(body.category, note.category),
        published: merged_flag(body.published, note.published),
        updated_at: now,
    }
}

/// The response to the update of an edit, for each answer of the store. A row
/// that is gone by the time of the update is a note that was not found.
pub open spec fn edit_response(id: u128, answer: Result<NoteView, StoreFailureView>)
    -> ResponseView {
    match answer {
        Ok(note) => note_response(Status::Okay, note),
        Err(failure) => if failure.kind == FailureKind::RowNotFound {
            not_found_response(id)
        } else {
            failure_response(failure)
        },
    }
}

/// How far an edit has come.
#[derive(Debug)]
pub enum EditStage {
    /// Nothing was asked of the store yet.
    Start,
    /// The store answered the lookup of the note.
    Fetched(Result<NoteModel, StoreFailure>),
    /// The store answered the update.
    Written(Result<NoteModel, StoreFailure>),
}

/// What an edit does next.
#[derive(Debug)]
pub enum EditStep {
    /// Look the note up.
    Fetch(NoteId),
    /// Write the merged note.
    Write(UpdateNote),
    /// Answer the request.
    Respond(Response),
}

/// A stage, as mathematical values.
pub enum EditStageView {
    Start,
    Fetched(Result<NoteView, StoreFailureView>),
    Written(Result<NoteView, StoreFailureView>),
}

/// A step, as mathematical values.
pub enum EditStepView {
    Fetch(u128),
    Write(UpdateView),
    Respond(ResponseView),
}

impl View for EditStage {
    type V = EditStageView;

    open spec fn view(&self) -> EditStageView {
        match self {
            EditStage::Start => EditStageView::Start,
            EditStage::Fetched(answer) => EditStageView::Fetched(row_view(*answer)),
            EditStage::Written(answer) => EditStageView::Written(row_view(*answer)),
        }
    }
}

impl View for EditStep {
    type V = EditStepView;

    open spec fn view(&self) -> EditStepView {
        match self {
            EditStep::Fetch(id) => EditStepView::Fetch(id.value),
            EditStep::Write(statement) => EditStepView::Write(statement@),
            EditStep::Respond(response) => EditStepView::Respond(response@),
        }
    }
}

/// The next step of an edit: look the note up; if it is there, write the merged
/// note with `now` as its time of update; then answer. Without the note the
/// edit answers at once and writes nothing.
pub open spec fn edit_step(id: u128, body: UpdateNoteView, stage: EditStageView, now: int)
    -> EditStepView {
    match stage {
        EditStageView::Start => EditStepView::Fetch(id),
        EditStageView::Fetched(Ok(note)) => EditStepView::Write(
            edit_statement(id, body, note, now),
        ),
        EditStageView::Fetched(Err(failure)) => EditStepView::Respond(
            missing_response(id, failure),
        ),
        EditStageView::Written(answer) => EditStepView::Respond(edit_response(id, answer)),
    }
}

fn with_message(status: Status, outcome: Outcome, text: String) -> (response: Response)
    ensures
        response@ == message_response(status, outcome, text@),
{
    Response { status, body: Body::Message { outcome, message: text } }
}

fn not_found(id: NoteId) -> (response: Response)
    ensures
        response@ == not_found_response(id.value),
{
    let mut text = "Note with ID: ".to_owned();
    let name = hyphenated(id.value);
    text.append(name.as_str());
    text.append(" not found");
    with_message(Status::NotFound, Outcome::Fail, text)
}

fn timed_out() -> (response: Response)
    ensures
        response@ == timeout_response(),
{
    with_message(Status::GatewayTimeout, Outcome::Error, STORE_TIMED_OUT.to_owned())
}

fn store_failed(cause: StoreFailure) -> (response: Response)
    ensures
        response@ == failure_response(cause@),
{
    match cause.kind {
        FailureKind::TimedOut => timed_out(),
        _ => with_message(Status::InternalServerError, Outcome::Error, cause.detail),
    }
}

fn missing(id: NoteId, cause: StoreFailure) -> (response: Response)
    ensures
        response@ == missing_response(id.value, cause@),
{
    match cause.kind {
        FailureKind::TimedOut => timed_out(),
        _ => not_found(id),
    }
}

/// Answers the health check.
pub fn health_checker_handler() -> (response: Response)
    ensures
        response@ == health_response(),
{
    with_message(Status::Okay, Outcome::Success, HEALTH_MESSAGE.to_owned())
}

/// The insertion that creates the note of `body`.
pub fn create_note_statement(body: &CreateNoteSchema) -> (statement: InsertNote)
    ensures
        statement@ == create_statement(body@),
{
    InsertNote {
        title: body.title.clone(),
        content: body.content.clone(),
        category: match &body.category {
            Some(category) => category.clone(),
            None => String::new(),
        },
    }
}

/// Answers a creation: 201 with the note, 409 where the store reports a broken
/// uniqueness constraint, 504 where it did not answer in time, 500 with the
/// failure in full otherwise.
pub fn create_note_handler(answer: Result<NoteModel, StoreFailure>) -> (response: Response)
    ensures
        response@ == create_response(row_view(answer)),
{
    match answer {
        Ok(note) => Response { status: Status::Created, body: Body::Note { note } },
        Err(cause) => {
            let conflict = match cause.kind {
                FailureKind::TimedOut => false,
                _ => contains(cause.message.as_str(), DUPLICATE_KEY),
            };
            if conflict {
                with_message(Status::Conflict, Outcome::Fail, TITLE_TAKEN.to_owned())
            } else {
                store_failed(cause)
            }
        },
    }
}

/// The selection that lists the page of `options`.
pub fn note_list_statement(options: Option<FilterOptions>) -> (statement: SelectPage)
    ensures
        statement == list_statement(options),
{
    let chosen = match options {
        Some(chosen) => chosen,
        None => FilterOptions::default(),
    };
    let limit: usize = match chosen.limit {
        Some(limit) => limit,
        None => DEFAULT_LIMIT,
    };
    let page: usize = match chosen.page {
        Some(page) => if page < 1 {
            1
        } else {
            page
        },
        None => 1,
    };
    let skipped: u128 = (page - 1) as u128;
    let span: u128 = limit as u128;
    assert(skipped * span <= 0xffff_ffff_ffff_ffff * 0xffff_ffff_ffff_ffff) by (nonlinear_arith)
        requires
            skipped <= 0xffff_ffff_ffff_ffff,
            span <= 0xffff_ffff_ffff_ffff,
    ;
    let offset: u128 = skipped * span;
    SelectPage { limit: saturate(span), offset: saturate(offset) }
}

fn saturate(count: u128) -> (kept: i64)
    ensures
        kept == saturated(count as int),
{
    if count > i64::MAX as u128 {
        i64::MAX
    } else {
        count as i64
    }
}

/// Answers a listing: 200 with the notes and their number, 504 where the
/// store did not answer in time, 500 with a fixed message where it failed
/// otherwise.
pub fn note_list_handler(answer: Result<Vec<NoteModel>, StoreFailure>) -> (response: Response)
    ensures
        response@ == list_response(page_view(answer)),
{
    match answer {
        Ok(notes) => {
            let results = notes.len();
            Response { status: Status::Okay, body: Body::Notes { results, notes } }
        },
        Err(cause) => match cause.kind {
            FailureKind::TimedOut => timed_out(),
            _ => with_message(
                Status::InternalServerError,
                Outcome::Error,
                LIST_FAILED.to_owned(),
            ),
        },
    }
}

/// Answers a lookup: 200 with the note, 504 where the store did not answer
/// in time, 404 naming `id` where it returned no note otherwise.
pub fn get_note_handler(id: NoteId, answer: Result<NoteModel, StoreFailure>) -> (response:
    Response)
    ensures
        response@ == get_response(id.value, row_view(answer)),
{
    match answer {
        Ok(note) => Response { status: Status::Okay, body: Body::Note { note } },
        Err(cause) => missing(id, cause),
    }
}

/// Answers a deletion by the number of rows removed: 204 for exactly one, 404
/// naming `id` for none, 500 for more; where the store failed, 504 if it did
/// not answer in time and 500 with the failure in full otherwise.
pub fn delete_note_handler(id: NoteId, answer: Result<u64, StoreFailure>) -> (response: Response)
    ensures
        response@ == delete_response(id.value, count_view(answer)),
{
    match answer {
        Ok(rows) => {
            if rows == 1 {
                Response { status: Status::NoContent, body: Body::Empty }
            } else if rows == 0 {
                not_found(id)
            } else {
                with_message(
                    Status::InternalServerError,
                    Outcome::Error,
                    MANY_REMOVED.to_owned(),
                )
            }
        },
        Err(cause) => store_failed(cause),
    }
}

fn merge_text(given: &Option<String>, stored: Option<String>) -> (text: String)
    ensures
        text@ == merged_text(crate::model::text_view(*given), crate::model::text_view(stored)),
{
    match given {
        Some(text) => text.clone(),
        None => match stored {
            Some(text) => text,
            None => String::new(),
        },
    }
}

fn merge_flag(given: Option<bool>, stored: Option<bool>) -> (flag: bool)
    ensures
        flag == merged_flag(given, stored),
{
    match given {
        Some(flag) => flag,
        None => match stored {
            Some(flag) => flag,
            None => false,
        },
    }
}

/// The update that lays `body` over `note`, to be stamped with `now`.
pub fn edit_note_statement(id: NoteId, body: &UpdateNoteSchema, note: NoteModel, now: i64)
    -> (statement: UpdateNote)
    ensures
        statement@ == edit_statement(id.value, body@, note@, now as int),
{
    UpdateNote {
        id,
        title: merge_text(&body.title, Some(note.title)),
        content: merge_text(&body.content, Some(note.content)),
        category: merge_text(&body.category, note.category),
        published: merge_flag(body.published, note.published),
        updated_at: now,
    }
}

/// The next step of an edit, where `now` is the time that an update is stamped
/// with.
pub fn edit_note_step(id: NoteId, body: &UpdateNoteSchema, stage: EditStage, now: i64) -> (step:
    EditStep)
    ensures
        step@ == edit_step(id.value, body@, stage@, now as int),
{
    match stage {
        EditStage::Start => EditStep::Fetch(id),
        EditStage::Fetched(Ok(note)) => EditStep::Write(edit_note_statement(id, body, note, now)),
        EditStage::Fetched(Err(cause)) => EditStep::Respond(missing(id, cause)),
        EditStage::Written(Ok(note)) => EditStep::Respond(
            Response { status: Status::Okay, body: Body::Note { note } },
        ),
        EditStage::Written(Err(cause)) => match cause.kind {
            FailureKind::RowNotFound => EditStep::Respond(not_found(id)),
            _ => EditStep::Respond(store_failed(cause)),
        },
    }
}

/// Reads the clock with `chrono::Utc::now` and gives the time in microseconds
/// since the Unix epoch, as `chrono::DateTime::timestamp_micros` counts them.
///
/// Trusted, and nothing is claimed of the time read. `Utc::now` panics where
/// the system clock stands before 1970.
#[verifier::external_body]
fn current_time() -> (now: i64) {
    chrono::Utc::now().timestamp_micros()
}

/// The next step of an edit, stamped with the time of the call.
///
/// The step is the one that `edit_step` gives for some reading of the clock;
/// only the `updated_at` of an update depends on it.
pub fn edit_note_handler(id: NoteId, body: &UpdateNoteSchema, stage: EditStage) -> (step:
    EditStep)
    ensures
        exists|now: i64| step@ == #[trigger] edit_step(id.value, body@, stage@, now as int),
{
    let now = current_time();
    edit_note_step(id, body, stage, now)
}

} // verus!
