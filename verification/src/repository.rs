//! What stands between the use cases and a document store.

pub mod experiment;
