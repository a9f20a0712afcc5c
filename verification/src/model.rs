//! The note record as the store returns it.

use vstd::prelude::*;

verus! {

/// The 128-bit value of a note's identifier.
#[derive(Clone, Copy, Debug, PartialEq, Eq, Structural)]
pub struct NoteId {
    pub value: u128,
}

/// One row of the notes table.
///
/// Timestamps are microseconds since the Unix epoch.
#[derive(Debug)]
pub struct NoteModel {
    pub id: NoteId,
    pub title: String,
    pub content: String,
    pub category: Option<String>,
    pub published: Option<bool>,
    pub created_at: i64,
    pub updated_at: i64,
}

/// What a row holds, as mathematical values.
pub struct NoteView {
    pub id: u128,
    pub title: Seq<char>,
    pub content: Seq<char>,
    pub category: Option<Seq<char>>,
    pub published: Option<bool>,
    pub created_at: int,
    pub updated_at: int,
}

/// The text held by an optional string.
pub open spec fn text_view(text: Option<String>) -> Option<Seq<char>> {
    match text {
        Some(s) => Some(s@),
        None => None,
    }
}

/// The rows of a vector, each as its view.
pub open spec fn rows_view(rows: Seq<NoteModel>) -> Seq<NoteView> {
    Seq::new(rows.len(), |i: int| rows[i]@)
}

impl View for NoteModel {
    type V = NoteView;

    open spec fn view(&self) -> NoteView {
        NoteView {
            id: self.id.value,
            title: self.title@,
            content: self.content@,
            category: text_view(self.category),
            published: self.published,
            created_at: self.created_at as int,
            updated_at: self.updated_at as int,
        }
    }
}

/// Copies an optional string.
pub fn clone_text(text: &Option<String>) -> (copy: Option<String>)
    ensures
        text_view(copy) == text_view(*text),
{
    match text {
        Some(s) => Some(s.clone()),
        None => None,
    }
}

impl NoteModel {
    /// Copies the row, field by field.
    pub fn duplicate(&self) -> (copy: NoteModel)
        ensures
            copy@ == self@,
    {
        NoteModel {
            id: self.id,
            title: self.title.clone(),
            content: self.content.clone(),
            category: clone_text(&self.category),
            published: self.published,
            created_at: self.created_at,
            updated_at: self.updated_at,
        }
    }
}

} // verus!
