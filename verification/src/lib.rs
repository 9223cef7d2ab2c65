//! Request execution pipeline of an HTTP API client.
//!
//! A request is described by a plain value ([`models::request::HttpRequest`]), turned
//! into a transport-ready description, dispatched by whatever HTTP client the
//! embedding program uses, and the raw answer is decoded into a typed
//! [`models::response::HttpResponse`]. Everything that decides or computes lives
//! here and is verified; network and file access stay with the caller.

pub mod codec;
pub mod error;
pub mod infrastructure;
pub mod json;
pub mod models;
pub mod text;
pub mod transport;
