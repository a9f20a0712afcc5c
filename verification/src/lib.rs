//! The request-handling rules of a small notes service.
//!
//! Each HTTP operation on a note is split into the statement it sends to the
//! relational store and the response it builds from the store's answer. The
//! rules are stated over plain values, so they can be driven by a real
//! connection pool or by the in-memory table of this crate.
//!
//! - [`schema`]: the shapes of request bodies and query parameters.
//! - [`model`]: the note as the store returns it.
//! - [`store`]: the statements sent to the store, and its failures.
//! - [`response`]: what a handler answers, and how it is written as JSON.
//! - [`handler`]: the handlers, one per operation.
//! - [`route`]: which handler answers which method and path.
//! - [`table`]: the notes table held in memory.
//! - [`service`]: the handlers carried out on that table.
//! - [`laws`]: what holds of the service whatever the table and the requests.
//! - [`text`]: substring search and the textual form of identifiers.

pub mod handler;
pub mod laws;
pub mod model;
pub mod response;
pub mod route;
pub mod schema;
pub mod service;
pub mod store;
pub mod table;
pub mod text;
