//! The shapes of request bodies and query parameters.

use vstd::prelude::*;

verus! {

/// Paging options of a listing: a 1-based page and the number of notes per page.
#[derive(Clone, Copy, Debug)]
pub struct FilterOptions {
    pub page: Option<usize>,
    pub limit: Option<usize>,
}

impl Default for FilterOptions {
    /// No page and no limit given.
    fn default() -> (options: FilterOptions)
        ensures
            options.page is None,
            options.limit is None,
    {
        FilterOptions { page: None, limit: None }
    }
}

/// The identifier of a note as it is written in a path.
#[derive(Debug)]
pub struct ParamsOptions {
    pub id: String,
}

/// The body of a request that creates a note.
#[derive(Debug)]
pub struct CreateNoteSchema {
    pub title: String,
    pub content: String,
    pub category: Option<String>,
    pub published: Option<bool>,
}

/// The body of a request that edits a note: every field may be left out.
#[derive(Debug)]
pub struct UpdateNoteSchema {
    pub title: Option<String>,
    pub content: Option<String>,
    pub category: Option<String>,
    pub published: Option<bool>,
}

/// What a creation body holds, as mathematical values.
pub struct CreateNoteView {
    pub title: Seq<char>,
    pub content: Seq<char>,
    pub category: Option<Seq<char>>,
    pub published: Option<bool>,
}

/// What an edit body holds, as mathematical values.
pub struct UpdateNoteView {
    pub title: Option<Seq<char>>,
    pub content: Option<Seq<char>>,
    pub category: Option<Seq<char>>,
    pub published: Option<bool>,
}

impl View for CreateNoteSchema {
    type V = CreateNoteView;

    open spec fn view(&self) -> CreateNoteView {
        CreateNoteView {
            title: self.title@,
            content: self.content@,
            category: crate::model::text_view(self.category),
            published: self.published,
        }
    }
}

impl View for UpdateNoteSchema {
    type V = UpdateNoteView;

    open spec fn view(&self) -> UpdateNoteView {
        UpdateNoteView {
            title: crate::model::text_view(self.title),
            content: crate::model::text_view(self.content),
            category: crate::model::text_view(self.category),
            published: self.published,
        }
    }
}

} // verus!
