//! An in-process model of a small account-and-todo service: account ("auth")
//! and todo records live in a relational-style store with store-assigned ids,
//! and each request handler turns one request into one store operation and a
//! tagged response of status, content type and body.

pub mod auth_api;
pub mod laws;
pub mod model;
pub mod response;
pub mod store;
pub mod todo_api;
pub mod validate;
