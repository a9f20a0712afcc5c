//! The statements that handlers send to the store, and how the store fails.

use vstd::prelude::*;
use crate::model::{NoteId, NoteModel, NoteView, rows_view};

verus! {

/// The words by which the store reports a broken uniqueness constraint.
pub const DUPLICATE_KEY: &'static str = "duplicate key value violates unique constraint";

/// The statement of an insertion, with the title, the content and the
/// category as its parameters.
pub const INSERT_NOTE: &'static str =
    "INSERT INTO notes (title,content,category) VALUES ($1, $2, $3) RETURNING *";

/// The statement of a selection of a page, with the limit and the offset as
/// its parameters.
pub const SELECT_PAGE: &'static str =
    "SELECT * FROM notes ORDER BY created_at DESC LIMIT $1 OFFSET $2";

/// The statement of a selection by identifier.
pub const SELECT_NOTE: &'static str = "SELECT * FROM notes WHERE id = $1";

/// The statement of an update, with the title, the content, the category,
/// the published flag, the time of update and the identifier as its
/// parameters.
pub const UPDATE_NOTE: &'static str =
    "UPDATE notes SET title = $1, content = $2, category = $3, published = $4, updated_at = $5 WHERE id = $6 RETURNING *";

/// The statement of a deletion by identifier.
pub const DELETE_NOTE: &'static str = "DELETE FROM notes WHERE id = $1";

/// The parameters of an insertion.
#[derive(Debug)]
pub struct InsertNote {
    pub title: String,
    pub content: String,
    pub category: String,
}

/// The parameters of a selection of a page, newest note first.
#[derive(Clone, Copy, Debug, PartialEq, Eq, Structural)]
pub struct SelectPage {
    pub limit: i64,
    pub offset: i64,
}

/// The parameters of an update.
#[derive(Debug)]
pub struct UpdateNote {
    pub id: NoteId,
    pub title: String,
    pub content: String,
    pub category: String,
    pub published: bool,
    pub updated_at: i64,
}

/// Why the store did not carry out a statement.
#[derive(Clone, Copy, Debug, PartialEq, Eq, Structural)]
pub enum FailureKind {
    /// The statement was to return a row and found none.
    RowNotFound,
    /// The store did not answer within the time allowed.
    TimedOut,
    /// Anything else: a broken constraint, a lost connection.
    Other,
}

/// A statement that the store did not carry out.
#[derive(Debug)]
pub struct StoreFailure {
    pub kind: FailureKind,
    /// The failure in words.
    pub message: String,
    /// The failure in full, as the store's client reports it.
    pub detail: String,
}

/// An insertion, as mathematical values.
pub struct InsertView {
    pub title: Seq<char>,
    pub content: Seq<char>,
    pub category: Seq<char>,
}

/// An update, as mathematical values.
pub struct UpdateView {
    pub id: u128,
    pub title: Seq<char>,
    pub content: Seq<char>,
    pub category: Seq<char>,
    pub published: bool,
    pub updated_at: int,
}

/// A failure, as mathematical values.
pub struct StoreFailureView {
    pub kind: FailureKind,
    pub message: Seq<char>,
    pub detail: Seq<char>,
}

impl View for InsertNote {
    type V = InsertView;

    open spec fn view(&self) -> InsertView {
        InsertView { title: self.title@, content: self.content@, category: self.category@ }
    }
}

impl View for UpdateNote {
    type V = UpdateView;

    open spec fn view(&self) -> UpdateView {
        UpdateView {
            id: self.id.value,
            title: self.title@,
            content: self.content@,
            category: self.category@,
            published: self.published,
            updated_at: self.updated_at as int,
        }
    }
}

impl View for StoreFailure {
    type V = StoreFailureView;

    open spec fn view(&self) -> StoreFailureView {
        StoreFailureView {
            kind: self.kind,
            message: self.message@,
            detail: self.detail@,
        }
    }
}

/// The answer to a statement that returns one row.
pub open spec fn row_view(answer: Result<NoteModel, StoreFailure>) -> Result<
    NoteView,
    StoreFailureView,
> {
    match answer {
        Ok(note) => Ok(note@),
        Err(failure) => Err(failure@),
    }
}

/// The answer to a statement that returns rows.
pub open spec fn page_view(answer: Result<Vec<NoteModel>, StoreFailure>) -> Result<
    Seq<NoteView>,
    StoreFailureView,
> {
    match answer {
        Ok(notes) => Ok(rows_view(notes@)),
        Err(failure) => Err(failure@),
    }
}

/// The answer to a statement that returns a number of rows.
pub open spec fn count_view(answer: Result<u64, StoreFailure>) -> Result<int, StoreFailureView> {
    match answer {
        Ok(rows) => Ok(rows as int),
        Err(failure) => Err(failure@),
    }
}

} // verus!
