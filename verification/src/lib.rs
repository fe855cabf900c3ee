//! An incremental-computation engine: a computation is a graph of input nodes
//! and derived values, and a derived value is recomputed only when the content
//! of something it depends on has changed since it was last looked at.
//!
//! Change is detected per edge, by comparing content hashes across resolution
//! passes, and never by a flag set on write.

pub mod execution;
