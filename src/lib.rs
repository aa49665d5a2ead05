//! Client-side ingestion into a time-series store: a row builder that turns rows
//! into columnar batches, the decisions of a bounded pipeline that streams batches to
//! the store, and a handle registry for foreign callers.

pub mod client;
pub mod error;
pub mod handles;
pub mod pipeline;
pub mod row;
pub mod value;
