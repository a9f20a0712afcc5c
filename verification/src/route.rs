//! The routes of the service: which operation answers which method and path.

use vstd::prelude::*;

verus! {

/// The HTTP methods that the service answers.
#[derive(Clone, Copy, Debug, PartialEq, Eq, Structural)]
pub enum Method {
    Get,
    Post,
    Patch,
    Delete,
}

/// The operations of the service.
#[derive(Clone, Copy, Debug, PartialEq, Eq, Structural)]
pub enum Endpoint {
    HealthChecker,
    NoteList,
    CreateNote,
    GetNote,
    EditNote,
    DeleteNote,
}

/// One route: a path pattern, in which `:id` stands for an identifier, a
/// method, and the operation that answers.
#[derive(Clone, Copy, Debug)]
pub struct Route {
    pub path: &'static str,
    pub method: Method,
    pub endpoint: Endpoint,
}

/// A route, as mathematical values.
pub struct RouteView {
    pub path: Seq<char>,
    pub method: Method,
    pub endpoint: Endpoint,
}

impl View for Route {
    type V = RouteView;

    open spec fn view(&self) -> RouteView {
        RouteView { path: self.path@, method: self.method, endpoint: self.endpoint }
    }
}

/// The path of the health check.
pub const HEALTH_PATH: &'static str = "/api/healthchecker";

/// The path of the collection of notes.
pub const NOTES_PATH: &'static str = "/api/notes";

/// The path of one note.
pub const NOTE_PATH: &'static str = "/api/notes/:id";

/// The routes of the service.
pub open spec fn routes() -> Seq<RouteView> {
    seq![
        RouteView { path: HEALTH_PATH@, method: Method::Get, endpoint: Endpoint::HealthChecker },
        RouteView { path: NOTES_PATH@, method: Method::Get, endpoint: Endpoint::NoteList },
        RouteView { path: NOTES_PATH@, method: Method::Post, endpoint: Endpoint::CreateNote },
        RouteView { path: NOTE_PATH@, method: Method::Get, endpoint: Endpoint::GetNote },
        RouteView { path: NOTE_PATH@, method: Method::Patch, endpoint: Endpoint::EditNote },
        RouteView { path: NOTE_PATH@, method: Method::Delete, endpoint: Endpoint::DeleteNote },
    ]
}

/// The routes of a vector, each as its view.
pub open spec fn routes_view(table: Seq<Route>) -> Seq<RouteView> {
    Seq::new(table.len(), |i: int| table[i]@)
}

/// Builds the table of routes.
pub fn create_router() -> (table: Vec<Route>)
    ensures
        routes_view(table@) == routes(),
{
    let mut table: Vec<Route> = Vec::new();
    table.push(
        Route { path: HEALTH_PATH, method: Method::Get, endpoint: Endpoint::HealthChecker },
    );
    table.push(Route { path: NOTES_PATH, method: Method::Get, endpoint: Endpoint::NoteList });
    table.push(Route { path: NOTES_PATH, method: Method::Post, endpoint: Endpoint::CreateNote });
    table.push(Route { path: NOTE_PATH, method: Method::Get, endpoint: Endpoint::GetNote });
    table.push(Route { path: NOTE_PATH, method: Method::Patch, endpoint: Endpoint::EditNote });
    table.push(Route { path: NOTE_PATH, method: Method::Delete, endpoint: Endpoint::DeleteNote });
    table
}

/// No two routes have both the path and the method in common, so a request
/// is answered by one operation at most.
pub proof fn lemma_routes_unambiguous()
    ensures
        forall|i: int, j: int|
            0 <= i < j < routes().len() ==> (#[trigger] routes()[i]).path != (
            #[trigger] routes()[j]).path || routes()[i].method != routes()[j].method,
{
    reveal_strlit("/api/healthchecker");
    reveal_strlit("/api/notes");
    reveal_strlit("/api/notes/:id");
    assert(NOTES_PATH@.len() == 10);
    assert(NOTE_PATH@.len() == 14);
}

} // verus!
