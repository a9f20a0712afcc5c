//! What a handler answers: an HTTP status and a body.

use vstd::prelude::*;
use crate::model::{NoteModel, NoteView, rows_view};

verus! {

/// The HTTP statuses that the service answers with.
#[derive(Clone, Copy, Debug, PartialEq, Eq, Structural)]
pub enum Status {
    Okay,
    Created,
    NoContent,
    NotFound,
    Conflict,
    InternalServerError,
    GatewayTimeout,
}

impl Status {
    /// The numeric status code.
    pub open spec fn code_of(self) -> int {
        match self {
            Status::Okay => 200,
            Status::Created => 201,
            Status::NoContent => 204,
            Status::NotFound => 404,
            Status::Conflict => 409,
            Status::InternalServerError => 500,
            Status::GatewayTimeout => 504,
        }
    }

    /// The numeric status code.
    pub fn code(&self) -> (code: u16)
        ensures
            code == self.code_of(),
    {
        match self {
            Status::Okay => 200,
            Status::Created => 201,
            Status::NoContent => 204,
            Status::NotFound => 404,
            Status::Conflict => 409,
            Status::InternalServerError => 500,
            Status::GatewayTimeout => 504,
        }
    }
}

/// The `status` member of a body: `success`, `fail` for an expected refusal
/// (not found, conflict), `error` for a failure of the store.
#[derive(Clone, Copy, Debug, PartialEq, Eq, Structural)]
pub enum Outcome {
    Success,
    Fail,
    Error,
}

impl Outcome {
    /// The word written in the body.
    pub open spec fn label_of(self) -> Seq<char> {
        match self {
            Outcome::Success => "success"@,
            Outcome::Fail => "fail"@,
            Outcome::Error => "error"@,
        }
    }

    /// The word written in the body.
    pub fn label(&self) -> (word: &'static str)
        ensures
            word@ == self.label_of(),
    {
        match self {
            Outcome::Success => "success",
            Outcome::Fail => "fail",
            Outcome::Error => "error",
        }
    }
}

/// The body of a response.
#[derive(Debug)]
pub enum Body {
    /// No body at all.
    Empty,
    /// `{"status": .., "message": ..}`
    Message { outcome: Outcome, message: String },
    /// `{"status": "success", "data": {"note": ..}}`
    Note { note: NoteModel },
    /// `{"status": "success", "results": .., "notes": [..]}`
    Notes { results: usize, notes: Vec<NoteModel> },
}

/// A body, as mathematical values.
pub enum BodyView {
    Empty,
    Message { outcome: Outcome, message: Seq<char> },
    Note { note: NoteView },
    Notes { results: int, notes: Seq<NoteView> },
}

impl View for Body {
    type V = BodyView;

    open spec fn view(&self) -> BodyView {
        match self {
            Body::Empty => BodyView::Empty,
            Body::Message { outcome, message } => BodyView::Message {
                outcome: *outcome,
                message: message@,
            },
            Body::Note { note } => BodyView::Note { note: note@ },
            Body::Notes { results, notes } => BodyView::Notes {
                results: *results as int,
                notes: rows_view(notes@),
            },
        }
    }
}

/// One member of the JSON object that a body is written as.
#[derive(Debug)]
pub enum Member {
    /// `"status"`: the outcome's word.
    Status(Outcome),
    /// `"message"`: a text.
    Message(String),
    /// `"data"`: an object whose member `"note"` is the note.
    Data(NoteModel),
    /// `"results"`: a number of notes.
    Results(usize),
    /// `"notes"`: the notes, in order.
    Notes(Vec<NoteModel>),
}

/// A member, as mathematical values.
pub enum MemberView {
    Status(Outcome),
    Message(Seq<char>),
    Data(NoteView),
    Results(int),
    Notes(Seq<NoteView>),
}

impl View for Member {
    type V = MemberView;

    open spec fn view(&self) -> MemberView {
        match self {
            Member::Status(outcome) => MemberView::Status(*outcome),
            Member::Message(message) => MemberView::Message(message@),
            Member::Data(note) => MemberView::Data(note@),
            Member::Results(results) => MemberView::Results(*results as int),
            Member::Notes(notes) => MemberView::Notes(rows_view(notes@)),
        }
    }
}

/// The name of the member that holds the note inside `"data"`.
pub const NOTE_KEY: &'static str = "note";

impl MemberView {
    /// The member's name in the object.
    pub open spec fn key_of(self) -> Seq<char> {
        match self {
            MemberView::Status(_) => "status"@,
            MemberView::Message(_) => "message"@,
            MemberView::Data(_) => "data"@,
            MemberView::Results(_) => "results"@,
            MemberView::Notes(_) => "notes"@,
        }
    }
}

impl Member {
    /// The member's name in the object.
    pub fn key(&self) -> (name: &'static str)
        ensures
            name@ == self@.key_of(),
    {
        match self {
            Member::Status(_) => "status",
            Member::Message(_) => "message",
            Member::Data(_) => "data",
            Member::Results(_) => "results",
            Member::Notes(_) => "notes",
        }
    }
}

/// The members of a vector, each as its view.
pub open spec fn members_view(members: Seq<Member>) -> Seq<MemberView> {
    Seq::new(members.len(), |i: int| members[i]@)
}

impl BodyView {
    /// The members of the object that the body is written as; none for the
    /// empty body, which is not written at all.
    pub open spec fn members_of(self) -> Seq<MemberView> {
        match self {
            BodyView::Empty => seq![],
            BodyView::Message { outcome, message } => seq![
                MemberView::Status(outcome),
                MemberView::Message(message),
            ],
            BodyView::Note { note } => seq![
                MemberView::Status(Outcome::Success),
                MemberView::Data(note),
            ],
            BodyView::Notes { results, notes } => seq![
                MemberView::Status(Outcome::Success),
                MemberView::Results(results),
                MemberView::Notes(notes),
            ],
        }
    }
}

impl Body {
    /// The members of the object that the body is written as.
    pub fn members(self) -> (members: Vec<Member>)
        ensures
            members_view(members@) == self@.members_of(),
    {
        let mut members: Vec<Member> = Vec::new();
        match self {
            Body::Empty => {},
            Body::Message { outcome, message } => {
                members.push(Member::Status(outcome));
                members.push(Member::Message(message));
            },
            Body::Note { note } => {
                members.push(Member::Status(Outcome::Success));
                members.push(Member::Data(note));
            },
            Body::Notes { results, notes } => {
                members.push(Member::Status(Outcome::Success));
                members.push(Member::Results(results));
                members.push(Member::Notes(notes));
            },
        }
        assert(members_view(members@) =~= self@.members_of());
        members
    }
}

/// A status and a body.
#[derive(Debug)]
pub struct Response {
    pub status: Status,
    pub body: Body,
}

/// A response, as mathematical values.
pub struct ResponseView {
    pub status: Status,
    pub body: BodyView,
}

impl View for Response {
    type V = ResponseView;

    open spec fn view(&self) -> ResponseView {
        ResponseView { status: self.status, body: self.body@ }
    }
}

/// The response that carries a message.
pub open spec fn message_response(status: Status, outcome: Outcome, message: Seq<char>)
    -> ResponseView {
    ResponseView { status, body: BodyView::Message { outcome, message } }
}

/// The response that carries one note.
pub open spec fn note_response(status: Status, note: NoteView) -> ResponseView {
    ResponseView { status, body: BodyView::Note { note } }
}

/// The response that carries a page of notes and their number.
pub open spec fn notes_response(notes: Seq<NoteView>) -> ResponseView {
    ResponseView {
        status: Status::Okay,
        body: BodyView::Notes { results: notes.len() as int, notes },
    }
}

/// The response without a body.
pub open spec fn empty_response(status: Status) -> ResponseView {
    ResponseView { status, body: BodyView::Empty }
}

} // verus!
