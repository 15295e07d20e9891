//! Helpers for planning queries with DataFusion.

pub mod calls;
pub mod planner;
pub mod util;
