//! Spans, the contexts that tie them into traces, and a recorder that fills
//! them in.

pub mod calls;
pub mod ctx;
pub mod laws;
pub mod metadata;
pub mod recorder;
pub mod span;
