//! The rules of the HTTP API: routing, the delete and query endpoints, and
//! what errors are answered with.
//!
//! The server around this module performs the requests' work. Each endpoint is
//! a chain of steps: a step says what to do next, and is handed the outcome to
//! become the next step or the error that ends the request.

pub mod calls;
pub mod delete;
pub mod error;
pub mod laws;
pub mod params;
pub mod query;
pub mod route;
pub mod write;
