//! The request and response data models.

pub mod headers;
pub mod request;
pub mod response;
