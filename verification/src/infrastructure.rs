//! The executors that stand between the request model and an HTTP client.

pub mod reqwest;
