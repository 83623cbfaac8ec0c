//! The tagged response a handler produces: an HTTP status, a content type,
//! and a body variant carrying exactly the columns the handler echoes back.

use vstd::prelude::*;
use crate::model::{Auth, Todo};

verus! {

/// How a response body is to be rendered on the wire.
#[derive(Clone, Copy, Debug, PartialEq, Eq, Structural)]
pub enum ContentType {
    /// The body is rendered as JSON.
    Json,
    /// The body is rendered as plain text.
    Text,
    /// The response carries no body at all.
    NoBody,
}

/// The payload of a response, one variant per shape a handler can return.
#[derive(Debug, PartialEq, Eq)]
pub enum Body {
    /// A single full account row.
    OneAuth(Auth),
    /// Every account row, in store order.
    Auths(Vec<Auth>),
    /// A single full todo row.
    OneTodo(Todo),
    /// Todo rows, in store order.
    Todos(Vec<Todo>),
    /// The `name` and `email` columns of an account row.
    NameEmail(String, String),
    /// The `title`, `content` and `creator` columns of a created todo.
    TitleContentCreator(String, String, i32),
    /// The `title` and `content` columns of an updated todo.
    TitleContent(String, String),
    /// A fixed human-readable message.
    Message(String),
    /// No body.
    Empty,
}

/// One handler response: status code, content type, and body.
#[derive(Debug, PartialEq, Eq)]
pub struct Response {
    pub status: u16,
    pub content_type: ContentType,
    pub body: Body,
}

} // verus!
