//! Request tracing, query planning helpers and the HTTP request rules of a
//! time series database server.
//!
//! * [`trace`] records spans: intervals of time spent on an operation, with
//!   their events, status and metadata.
//! * [`query`] turns sort keys into column references of a schema and prepares
//!   the inputs of DataFusion's planner.
//! * [`http`] decides how a request is routed, how the delete and query
//!   endpoints go from step to step, and what an error is answered with.

pub mod http;
pub mod query;
pub mod text;
pub mod time;
pub mod trace;
