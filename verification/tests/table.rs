use notes_api::model::{NoteId, NoteModel};
use notes_api::store::{
    FailureKind, InsertNote, SelectPage, StoreFailure, UpdateNote, DELETE_NOTE, DUPLICATE_KEY,
    INSERT_NOTE, SELECT_NOTE, SELECT_PAGE, UPDATE_NOTE,
};
use notes_api::table::NoteTable;

fn insertion(title: &str) -> InsertNote {
    InsertNote {
        title: title.to_string(),
        content: format!("content of {}", title),
        category: "misc".to_string(),
    }
}

fn titles(rows: &[NoteModel]) -> Vec<String> {
    rows.iter().map(|row| row.title.clone()).collect()
}

fn expect_failure(answer: Result<NoteModel, StoreFailure>) -> StoreFailure {
    match answer {
        Err(failure) => failure,
        Ok(row) => panic!("expected a failure, got {:?}", row),
    }
}

#[test]
fn new_table_is_empty() {
    let table = NoteTable::new();
    assert_eq!(table.len(), 0);
    assert!(table.select_page(SelectPage { limit: 10, offset: 0 }).unwrap().is_empty());
}

#[test]
fn insert_gives_out_identifiers_in_turn() {
    let mut table = NoteTable::new();
    let first = table.insert(insertion("a"), 100).unwrap();
    let second = table.insert(insertion("b"), 200).unwrap();
    assert_eq!(first.id, NoteId { value: 1 });
    assert_eq!(second.id, NoteId { value: 2 });
    assert_eq!(table.len(), 2);
}

#[test]
fn insert_returns_the_row_with_the_store_defaults() {
    let mut table = NoteTable::new();
    let row = table.insert(insertion("a"), 100).unwrap();
    assert_eq!(row.title, "a");
    assert_eq!(row.content, "content of a");
    assert_eq!(row.category, Some("misc".to_string()));
    assert_eq!(row.published, Some(false));
    assert_eq!(row.created_at, 100);
    assert_eq!(row.updated_at, 100);
}

#[test]
fn insert_refuses_a_title_in_use() {
    let mut table = NoteTable::new();
    table.insert(insertion("a"), 100).unwrap();
    let failure = expect_failure(table.insert(insertion("a"), 200));
    assert_eq!(failure.kind, FailureKind::Other);
    assert_eq!(
        failure.message,
        "error returned from database: duplicate key value violates unique constraint \"notes_title_key\""
    );
    assert_eq!(failure.detail, failure.message);
    assert_eq!(table.len(), 1);
}

#[test]
fn identifiers_are_not_used_again_after_a_deletion() {
    let mut table = NoteTable::new();
    let first = table.insert(insertion("a"), 100).unwrap();
    assert_eq!(table.delete(first.id).unwrap(), 1);
    let second = table.insert(insertion("a"), 200).unwrap();
    assert_eq!(second.id, NoteId { value: 2 });
}

#[test]
fn rows_stand_newest_first_whatever_the_order_of_insertion() {
    let mut table = NoteTable::new();
    table.insert(insertion("middle"), 200).unwrap();
    table.insert(insertion("oldest"), 100).unwrap();
    table.insert(insertion("newest"), 300).unwrap();
    let rows = table.select_page(SelectPage { limit: 10, offset: 0 }).unwrap();
    assert_eq!(titles(&rows), vec!["newest", "middle", "oldest"]);
}

#[test]
fn of_two_rows_with_one_time_the_later_insertion_stands_first() {
    let mut table = NoteTable::new();
    table.insert(insertion("first"), 100).unwrap();
    table.insert(insertion("second"), 100).unwrap();
    let rows = table.select_page(SelectPage { limit: 10, offset: 0 }).unwrap();
    assert_eq!(titles(&rows), vec!["second", "first"]);
}

#[test]
fn select_page_skips_and_limits() {
    let mut table = NoteTable::new();
    for (i, title) in ["a", "b", "c", "d", "e"].iter().enumerate() {
        table.insert(insertion(title), 100 * (i as i64 + 1)).unwrap();
    }
    let page = table.select_page(SelectPage { limit: 2, offset: 1 }).unwrap();
    assert_eq!(titles(&page), vec!["d", "c"]);
    let tail = table.select_page(SelectPage { limit: 10, offset: 3 }).unwrap();
    assert_eq!(titles(&tail), vec!["b", "a"]);
    let beyond = table.select_page(SelectPage { limit: 10, offset: 5 }).unwrap();
    assert!(beyond.is_empty());
    let far = table.select_page(SelectPage { limit: i64::MAX, offset: i64::MAX }).unwrap();
    assert!(far.is_empty());
    let all = table.select_page(SelectPage { limit: i64::MAX, offset: 0 }).unwrap();
    assert_eq!(all.len(), 5);
    let none = table.select_page(SelectPage { limit: 0, offset: 0 }).unwrap();
    assert!(none.is_empty());
}

#[test]
fn select_page_refuses_negative_counts() {
    let mut table = NoteTable::new();
    table.insert(insertion("a"), 100).unwrap();
    let limit = table.select_page(SelectPage { limit: -1, offset: 0 }).unwrap_err();
    assert_eq!(limit.message, "error returned from database: LIMIT must not be negative");
    assert_eq!(limit.kind, FailureKind::Other);
    let offset = table.select_page(SelectPage { limit: 1, offset: -1 }).unwrap_err();
    assert_eq!(offset.message, "error returned from database: OFFSET must not be negative");
}

#[test]
fn select_finds_a_row_by_its_identifier() {
    let mut table = NoteTable::new();
    table.insert(insertion("a"), 100).unwrap();
    let second = table.insert(insertion("b"), 200).unwrap();
    let found = table.select(second.id).unwrap();
    assert_eq!(found.title, "b");
    assert_eq!(found.id, second.id);
}

#[test]
fn select_reports_a_missing_row() {
    let table = NoteTable::new();
    let failure = expect_failure(table.select(NoteId { value: 5 }));
    assert_eq!(failure.kind, FailureKind::RowNotFound);
    assert_eq!(
        failure.message,
        "no rows returned by a query that expected to return at least one row"
    );
    assert_eq!(failure.detail, "RowNotFound");
}

fn update_of(id: NoteId, title: &str, updated_at: i64) -> UpdateNote {
    UpdateNote {
        id,
        title: title.to_string(),
        content: "changed".to_string(),
        category: "other".to_string(),
        published: true,
        updated_at,
    }
}

#[test]
fn update_overwrites_the_row_in_place() {
    let mut table = NoteTable::new();
    let first = table.insert(insertion("a"), 100).unwrap();
    table.insert(insertion("b"), 200).unwrap();
    let row = table.update(update_of(first.id, "renamed", 500)).unwrap();
    assert_eq!(row.id, first.id);
    assert_eq!(row.title, "renamed");
    assert_eq!(row.content, "changed");
    assert_eq!(row.category, Some("other".to_string()));
    assert_eq!(row.published, Some(true));
    assert_eq!(row.created_at, 100);
    assert_eq!(row.updated_at, 500);
    let rows = table.select_page(SelectPage { limit: 10, offset: 0 }).unwrap();
    assert_eq!(titles(&rows), vec!["b", "renamed"]);
    assert_eq!(table.select(first.id).unwrap().title, "renamed");
}

#[test]
fn update_may_keep_the_title() {
    let mut table = NoteTable::new();
    let first = table.insert(insertion("a"), 100).unwrap();
    let row = table.update(update_of(first.id, "a", 500)).unwrap();
    assert_eq!(row.title, "a");
    assert_eq!(row.updated_at, 500);
}

#[test]
fn update_refuses_the_title_of_another_row() {
    let mut table = NoteTable::new();
    let first = table.insert(insertion("a"), 100).unwrap();
    table.insert(insertion("b"), 200).unwrap();
    let failure = expect_failure(table.update(update_of(first.id, "b", 500)));
    assert_eq!(failure.kind, FailureKind::Other);
    assert!(failure.message.contains("duplicate key value violates unique constraint"));
    assert_eq!(table.select(first.id).unwrap().title, "a");
    assert_eq!(table.select(first.id).unwrap().updated_at, 100);
}

#[test]
fn update_reports_a_missing_row() {
    let mut table = NoteTable::new();
    table.insert(insertion("a"), 100).unwrap();
    let failure = expect_failure(table.update(update_of(NoteId { value: 9 }, "z", 500)));
    assert_eq!(failure.kind, FailureKind::RowNotFound);
    assert_eq!(table.len(), 1);
}

#[test]
fn delete_removes_one_row_or_none() {
    let mut table = NoteTable::new();
    let first = table.insert(insertion("a"), 100).unwrap();
    table.insert(insertion("b"), 200).unwrap();
    assert_eq!(table.delete(NoteId { value: 9 }).unwrap(), 0);
    assert_eq!(table.len(), 2);
    assert_eq!(table.delete(first.id).unwrap(), 1);
    assert_eq!(table.len(), 1);
    assert_eq!(table.delete(first.id).unwrap(), 0);
    let rows = table.select_page(SelectPage { limit: 10, offset: 0 }).unwrap();
    assert_eq!(titles(&rows), vec!["b"]);
}

#[test]
fn statements_name_the_notes_table_and_their_parameters() {
    assert_eq!(
        INSERT_NOTE,
        "INSERT INTO notes (title,content,category) VALUES ($1, $2, $3) RETURNING *"
    );
    assert_eq!(SELECT_PAGE, "SELECT * FROM notes ORDER BY created_at DESC LIMIT $1 OFFSET $2");
    assert_eq!(SELECT_NOTE, "SELECT * FROM notes WHERE id = $1");
    assert_eq!(
        UPDATE_NOTE,
        "UPDATE notes SET title = $1, content = $2, category = $3, published = $4, updated_at = $5 WHERE id = $6 RETURNING *"
    );
    assert_eq!(DELETE_NOTE, "DELETE FROM notes WHERE id = $1");
    assert_eq!(DUPLICATE_KEY, "duplicate key value violates unique constraint");
}
