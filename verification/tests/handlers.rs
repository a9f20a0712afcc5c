use notes_api::handler::{
    create_note_handler, create_note_statement, delete_note_handler, edit_note_handler,
    edit_note_statement, edit_note_step, get_note_handler, health_checker_handler,
    note_list_handler, note_list_statement, EditStage, EditStep,
};
use notes_api::model::{NoteId, NoteModel};
use notes_api::response::{Body, Member, Outcome, Response, Status, NOTE_KEY};
use notes_api::schema::{CreateNoteSchema, FilterOptions, UpdateNoteSchema};
use notes_api::store::{FailureKind, SelectPage, StoreFailure};

fn sample_note() -> NoteModel {
    NoteModel {
        id: NoteId { value: 0xa1a2a3a4b1b2c1c2d1d2d3d4d5d6d7d8 },
        title: "groceries".to_string(),
        content: "milk, eggs".to_string(),
        category: Some("home".to_string()),
        published: Some(true),
        created_at: 1_700_000_000_000_000,
        updated_at: 1_700_000_500_000_000,
    }
}

fn failure(message: &str, detail: &str) -> StoreFailure {
    StoreFailure {
        kind: FailureKind::Other,
        message: message.to_string(),
        detail: detail.to_string(),
    }
}

fn row_not_found() -> StoreFailure {
    StoreFailure {
        kind: FailureKind::RowNotFound,
        message: "no rows returned by a query that expected to return at least one row"
            .to_string(),
        detail: "RowNotFound".to_string(),
    }
}

fn timeout() -> StoreFailure {
    StoreFailure {
        kind: FailureKind::TimedOut,
        message: "deadline has elapsed".to_string(),
        detail: "Elapsed(())".to_string(),
    }
}

fn assert_timed_out(response: &Response) {
    assert_eq!(response.status, Status::GatewayTimeout);
    assert_eq!(
        message_of(response),
        (Outcome::Error, "The store did not answer in time".to_string())
    );
}

fn message_of(response: &Response) -> (Outcome, String) {
    match &response.body {
        Body::Message { outcome, message } => (*outcome, message.clone()),
        other => panic!("expected a message, got {:?}", other),
    }
}

fn note_of(response: &Response) -> &NoteModel {
    match &response.body {
        Body::Note { note } => note,
        other => panic!("expected a note, got {:?}", other),
    }
}

fn same_note(left: &NoteModel, right: &NoteModel) -> bool {
    left.id == right.id
        && left.title == right.title
        && left.content == right.content
        && left.category == right.category
        && left.published == right.published
        && left.created_at == right.created_at
        && left.updated_at == right.updated_at
}

#[test]
fn status_codes_are_the_conventional_ones() {
    assert_eq!(Status::Okay.code(), 200);
    assert_eq!(Status::Created.code(), 201);
    assert_eq!(Status::NoContent.code(), 204);
    assert_eq!(Status::NotFound.code(), 404);
    assert_eq!(Status::Conflict.code(), 409);
    assert_eq!(Status::InternalServerError.code(), 500);
    assert_eq!(Status::GatewayTimeout.code(), 504);
}

#[test]
fn outcome_labels_are_the_envelope_words() {
    assert_eq!(Outcome::Success.label(), "success");
    assert_eq!(Outcome::Fail.label(), "fail");
    assert_eq!(Outcome::Error.label(), "error");
}

#[test]
fn health_check_answers_success_with_the_fixed_message() {
    let response = health_checker_handler();
    assert_eq!(response.status, Status::Okay);
    assert_eq!(
        message_of(&response),
        (
            Outcome::Success,
            "Building a simple CRUD API with Rust, SQLX, Postgres,and Axum".to_string()
        )
    );
}

#[test]
fn create_statement_defaults_the_category_to_empty() {
    let body = CreateNoteSchema {
        title: "t1".to_string(),
        content: "c1".to_string(),
        category: None,
        published: Some(true),
    };
    let statement = create_note_statement(&body);
    assert_eq!(statement.title, "t1");
    assert_eq!(statement.content, "c1");
    assert_eq!(statement.category, "");
}

#[test]
fn create_statement_keeps_a_given_category() {
    let body = CreateNoteSchema {
        title: "t1".to_string(),
        content: "c1".to_string(),
        category: Some("work".to_string()),
        published: None,
    };
    assert_eq!(create_note_statement(&body).category, "work");
}

#[test]
fn create_answers_201_with_the_row() {
    let response = create_note_handler(Ok(sample_note()));
    assert_eq!(response.status, Status::Created);
    assert!(same_note(note_of(&response), &sample_note()));
}

#[test]
fn create_answers_409_on_a_broken_uniqueness_constraint() {
    let cause = failure(
        "error returned from database: duplicate key value violates unique constraint \"notes_title_key\"",
        "Database(PgDatabaseError { code: \"23505\" })",
    );
    let response = create_note_handler(Err(cause));
    assert_eq!(response.status, Status::Conflict);
    assert_eq!(
        message_of(&response),
        (Outcome::Fail, "Note with that title already exists".to_string())
    );
}

#[test]
fn create_answers_500_with_the_detail_on_another_failure() {
    let cause = failure("attempted to acquire a connection on a closed pool", "PoolClosed");
    let response = create_note_handler(Err(cause));
    assert_eq!(response.status, Status::InternalServerError);
    assert_eq!(message_of(&response), (Outcome::Error, "PoolClosed".to_string()));
}

#[test]
fn create_does_not_take_part_of_the_phrase_for_a_conflict() {
    let cause = failure("duplicate key value violates unique constrain", "Truncated");
    let response = create_note_handler(Err(cause));
    assert_eq!(response.status, Status::InternalServerError);
}

#[test]
fn listing_defaults_to_the_first_page_of_ten() {
    assert_eq!(note_list_statement(None), SelectPage { limit: 10, offset: 0 });
    let blank = FilterOptions::default();
    assert_eq!(blank.page, None);
    assert_eq!(blank.limit, None);
    assert_eq!(note_list_statement(Some(blank)), SelectPage { limit: 10, offset: 0 });
}

#[test]
fn listing_skips_the_pages_before_the_requested_one() {
    let options = FilterOptions { page: Some(3), limit: Some(5) };
    assert_eq!(note_list_statement(Some(options)), SelectPage { limit: 5, offset: 10 });
    let second = FilterOptions { page: Some(2), limit: Some(1) };
    assert_eq!(note_list_statement(Some(second)), SelectPage { limit: 1, offset: 1 });
    let only_page = FilterOptions { page: Some(4), limit: None };
    assert_eq!(note_list_statement(Some(only_page)), SelectPage { limit: 10, offset: 30 });
}

#[test]
fn listing_takes_page_zero_for_the_first_page() {
    let options = FilterOptions { page: Some(0), limit: Some(7) };
    assert_eq!(note_list_statement(Some(options)), SelectPage { limit: 7, offset: 0 });
}

#[test]
fn listing_with_limit_zero_asks_for_nothing() {
    let options = FilterOptions { page: Some(9), limit: Some(0) };
    assert_eq!(note_list_statement(Some(options)), SelectPage { limit: 0, offset: 0 });
}

#[test]
fn listing_saturates_counts_that_the_store_cannot_take() {
    let options = FilterOptions { page: Some(usize::MAX), limit: Some(usize::MAX) };
    let statement = note_list_statement(Some(options));
    assert_eq!(statement.offset, i64::MAX);
    let expected_limit = if (usize::MAX as u128) > (i64::MAX as u128) {
        i64::MAX
    } else {
        usize::MAX as i64
    };
    assert_eq!(statement.limit, expected_limit);
}

#[test]
fn list_answers_200_with_the_notes_and_their_number() {
    let mut second = sample_note();
    second.id = NoteId { value: 2 };
    second.title = "second".to_string();
    let response = note_list_handler(Ok(vec![sample_note(), second]));
    assert_eq!(response.status, Status::Okay);
    match &response.body {
        Body::Notes { results, notes } => {
            assert_eq!(*results, 2);
            assert_eq!(notes.len(), 2);
            assert!(same_note(&notes[0], &sample_note()));
            assert_eq!(notes[1].title, "second");
        }
        other => panic!("expected notes, got {:?}", other),
    }
}

#[test]
fn list_answers_200_with_no_notes() {
    let response = note_list_handler(Ok(Vec::new()));
    assert_eq!(response.status, Status::Okay);
    match &response.body {
        Body::Notes { results, notes } => {
            assert_eq!(*results, 0);
            assert!(notes.is_empty());
        }
        other => panic!("expected notes, got {:?}", other),
    }
}

#[test]
fn list_answers_500_without_the_detail() {
    let response = note_list_handler(Err(failure("connection refused", "Io(ConnectionRefused)")));
    assert_eq!(response.status, Status::InternalServerError);
    assert_eq!(
        message_of(&response),
        (
            Outcome::Error,
            "Something bad happened while fetching all note items".to_string()
        )
    );
}

#[test]
fn get_answers_200_with_the_row() {
    let id = sample_note().id;
    let response = get_note_handler(id, Ok(sample_note()));
    assert_eq!(response.status, Status::Okay);
    assert!(same_note(note_of(&response), &sample_note()));
}

#[test]
fn get_answers_404_naming_the_identifier() {
    let id = NoteId { value: 0xa1a2a3a4b1b2c1c2d1d2d3d4d5d6d7d8 };
    let response = get_note_handler(id, Err(row_not_found()));
    assert_eq!(response.status, Status::NotFound);
    assert_eq!(
        message_of(&response),
        (
            Outcome::Fail,
            "Note with ID: a1a2a3a4-b1b2-c1c2-d1d2-d3d4d5d6d7d8 not found".to_string()
        )
    );
}

#[test]
fn get_names_small_identifiers_with_leading_zeros() {
    let response = get_note_handler(NoteId { value: 0x1f }, Err(row_not_found()));
    assert_eq!(
        message_of(&response).1,
        "Note with ID: 00000000-0000-0000-0000-00000000001f not found"
    );
    let largest = get_note_handler(NoteId { value: u128::MAX }, Err(row_not_found()));
    assert_eq!(
        message_of(&largest).1,
        "Note with ID: ffffffff-ffff-ffff-ffff-ffffffffffff not found"
    );
}

#[test]
fn get_answers_404_on_any_failure() {
    let response =
        get_note_handler(NoteId { value: 7 }, Err(failure("connection refused", "Io(Refused)")));
    assert_eq!(response.status, Status::NotFound);
    assert_eq!(
        message_of(&response).1,
        "Note with ID: 00000000-0000-0000-0000-000000000007 not found"
    );
}

#[test]
fn delete_answers_204_for_one_row() {
    let response = delete_note_handler(NoteId { value: 7 }, Ok(1));
    assert_eq!(response.status, Status::NoContent);
    assert!(matches!(response.body, Body::Empty));
}

#[test]
fn delete_answers_404_for_no_row() {
    let response = delete_note_handler(NoteId { value: 7 }, Ok(0));
    assert_eq!(response.status, Status::NotFound);
    assert_eq!(
        message_of(&response),
        (
            Outcome::Fail,
            "Note with ID: 00000000-0000-0000-0000-000000000007 not found".to_string()
        )
    );
}

#[test]
fn delete_answers_500_for_more_than_one_row() {
    let response = delete_note_handler(NoteId { value: 7 }, Ok(2));
    assert_eq!(response.status, Status::InternalServerError);
    assert_eq!(
        message_of(&response),
        (Outcome::Error, "More than one note was removed".to_string())
    );
}

#[test]
fn delete_answers_500_with_the_detail_on_a_failure() {
    let response =
        delete_note_handler(NoteId { value: 7 }, Err(failure("closed", "PoolClosed")));
    assert_eq!(response.status, Status::InternalServerError);
    assert_eq!(message_of(&response), (Outcome::Error, "PoolClosed".to_string()));
}

fn title_only(title: &str) -> UpdateNoteSchema {
    UpdateNoteSchema {
        title: Some(title.to_string()),
        content: None,
        category: None,
        published: None,
    }
}

#[test]
fn edit_statement_keeps_what_the_body_leaves_out() {
    let id = sample_note().id;
    let statement = edit_note_statement(id, &title_only("new"), sample_note(), 1_800_000_000_000_000);
    assert_eq!(statement.id, id);
    assert_eq!(statement.title, "new");
    assert_eq!(statement.content, "milk, eggs");
    assert_eq!(statement.category, "home");
    assert!(statement.published);
    assert_eq!(statement.updated_at, 1_800_000_000_000_000);
}

#[test]
fn edit_statement_takes_every_field_that_the_body_names() {
    let body = UpdateNoteSchema {
        title: Some("a".to_string()),
        content: Some("b".to_string()),
        category: Some("c".to_string()),
        published: Some(false),
    };
    let statement = edit_note_statement(NoteId { value: 9 }, &body, sample_note(), 5);
    assert_eq!(statement.id, NoteId { value: 9 });
    assert_eq!(statement.title, "a");
    assert_eq!(statement.content, "b");
    assert_eq!(statement.category, "c");
    assert!(!statement.published);
    assert_eq!(statement.updated_at, 5);
}

#[test]
fn edit_statement_falls_back_to_defaults_for_null_columns() {
    let mut stored = sample_note();
    stored.category = None;
    stored.published = None;
    let statement = edit_note_statement(stored.id, &title_only("new"), stored, 5);
    assert_eq!(statement.category, "");
    assert!(!statement.published);
}

#[test]
fn edit_starts_by_looking_the_note_up() {
    let id = NoteId { value: 7 };
    match edit_note_step(id, &title_only("new"), EditStage::Start, 5) {
        EditStep::Fetch(which) => assert_eq!(which, id),
        other => panic!("expected a lookup, got {:?}", other),
    }
}

#[test]
fn edit_writes_the_merged_note_once_it_is_found() {
    let id = sample_note().id;
    match edit_note_step(id, &title_only("new"), EditStage::Fetched(Ok(sample_note())), 99) {
        EditStep::Write(statement) => {
            assert_eq!(statement.id, id);
            assert_eq!(statement.title, "new");
            assert_eq!(statement.content, "milk, eggs");
            assert_eq!(statement.updated_at, 99);
        }
        other => panic!("expected an update, got {:?}", other),
    }
}

#[test]
fn edit_answers_404_and_writes_nothing_without_the_note() {
    let id = NoteId { value: 7 };
    match edit_note_step(id, &title_only("new"), EditStage::Fetched(Err(row_not_found())), 5) {
        EditStep::Respond(response) => {
            assert_eq!(response.status, Status::NotFound);
            assert_eq!(
                message_of(&response),
                (
                    Outcome::Fail,
                    "Note with ID: 00000000-0000-0000-0000-000000000007 not found".to_string()
                )
            );
        }
        other => panic!("expected a response, got {:?}", other),
    }
}

#[test]
fn edit_answers_200_with_the_written_row() {
    let id = sample_note().id;
    match edit_note_step(id, &title_only("new"), EditStage::Written(Ok(sample_note())), 5) {
        EditStep::Respond(response) => {
            assert_eq!(response.status, Status::Okay);
            assert!(same_note(note_of(&response), &sample_note()));
        }
        other => panic!("expected a response, got {:?}", other),
    }
}

#[test]
fn edit_answers_404_when_the_row_is_gone_at_the_update() {
    let id = NoteId { value: 7 };
    match edit_note_step(id, &title_only("new"), EditStage::Written(Err(row_not_found())), 5) {
        EditStep::Respond(response) => {
            assert_eq!(response.status, Status::NotFound);
            assert_eq!(
                message_of(&response).1,
                "Note with ID: 00000000-0000-0000-0000-000000000007 not found"
            );
        }
        other => panic!("expected a response, got {:?}", other),
    }
}

#[test]
fn edit_answers_500_with_the_detail_when_the_update_fails() {
    let id = NoteId { value: 7 };
    let cause = failure("connection reset", "Io(ConnectionReset)");
    match edit_note_step(id, &title_only("new"), EditStage::Written(Err(cause)), 5) {
        EditStep::Respond(response) => {
            assert_eq!(response.status, Status::InternalServerError);
            assert_eq!(
                message_of(&response),
                (Outcome::Error, "Io(ConnectionReset)".to_string())
            );
        }
        other => panic!("expected a response, got {:?}", other),
    }
}

#[test]
fn edit_handler_stamps_the_update_with_the_clock() {
    let id = sample_note().id;
    // 2020-01-01T00:00:00Z in microseconds: the clock of any run is later.
    let long_ago: i64 = 1_577_836_800_000_000;
    match edit_note_handler(id, &title_only("new"), EditStage::Fetched(Ok(sample_note()))) {
        EditStep::Write(statement) => {
            assert_eq!(statement.title, "new");
            assert_eq!(statement.content, "milk, eggs");
            assert!(statement.updated_at > long_ago);
        }
        other => panic!("expected an update, got {:?}", other),
    }
}

#[test]
fn edit_handler_steps_as_the_step_function_does() {
    let id = NoteId { value: 7 };
    match edit_note_handler(id, &title_only("new"), EditStage::Start) {
        EditStep::Fetch(which) => assert_eq!(which, id),
        other => panic!("expected a lookup, got {:?}", other),
    }
    match edit_note_handler(id, &title_only("new"), EditStage::Fetched(Err(row_not_found()))) {
        EditStep::Respond(response) => assert_eq!(response.status, Status::NotFound),
        other => panic!("expected a response, got {:?}", other),
    }
}

#[test]
fn every_handler_answers_504_when_the_store_is_late() {
    let id = NoteId { value: 7 };
    assert_timed_out(&create_note_handler(Err(timeout())));
    assert_timed_out(&note_list_handler(Err(timeout())));
    assert_timed_out(&get_note_handler(id, Err(timeout())));
    assert_timed_out(&delete_note_handler(id, Err(timeout())));
    match edit_note_step(id, &title_only("new"), EditStage::Fetched(Err(timeout())), 5) {
        EditStep::Respond(response) => assert_timed_out(&response),
        other => panic!("expected a response, got {:?}", other),
    }
    match edit_note_step(id, &title_only("new"), EditStage::Written(Err(timeout())), 5) {
        EditStep::Respond(response) => assert_timed_out(&response),
        other => panic!("expected a response, got {:?}", other),
    }
}

#[test]
fn a_late_store_is_no_conflict_whatever_its_message() {
    let late = StoreFailure {
        kind: FailureKind::TimedOut,
        message: "duplicate key value violates unique constraint".to_string(),
        detail: "Elapsed(())".to_string(),
    };
    assert_timed_out(&create_note_handler(Err(late)));
}

fn keys(members: &[Member]) -> Vec<&'static str> {
    members.iter().map(|member| member.key()).collect()
}

#[test]
fn the_empty_body_has_no_members() {
    assert!(Body::Empty.members().is_empty());
}

#[test]
fn a_message_is_written_as_status_and_message() {
    let body = Body::Message { outcome: Outcome::Fail, message: "gone".to_string() };
    let members = body.members();
    assert_eq!(keys(&members), vec!["status", "message"]);
    assert!(matches!(members[0], Member::Status(Outcome::Fail)));
    match &members[1] {
        Member::Message(message) => assert_eq!(message, "gone"),
        other => panic!("expected a message, got {:?}", other),
    }
}

#[test]
fn a_note_is_written_as_success_and_data() {
    let members = Body::Note { note: sample_note() }.members();
    assert_eq!(keys(&members), vec!["status", "data"]);
    assert!(matches!(members[0], Member::Status(Outcome::Success)));
    match &members[1] {
        Member::Data(note) => assert!(same_note(note, &sample_note())),
        other => panic!("expected a note, got {:?}", other),
    }
    assert_eq!(NOTE_KEY, "note");
}

#[test]
fn notes_are_written_as_success_results_and_notes() {
    let members = Body::Notes { results: 1, notes: vec![sample_note()] }.members();
    assert_eq!(keys(&members), vec!["status", "results", "notes"]);
    assert!(matches!(members[0], Member::Status(Outcome::Success)));
    assert!(matches!(members[1], Member::Results(1)));
    match &members[2] {
        Member::Notes(notes) => {
            assert_eq!(notes.len(), 1);
            assert!(same_note(&notes[0], &sample_note()));
        }
        other => panic!("expected notes, got {:?}", other),
    }
}
