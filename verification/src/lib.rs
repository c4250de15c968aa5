//! Client-side access layer for Reddit's paginated, tree-shaped content API.
//!
//! The crate holds the parts of the client that decide and compute: how a
//! comment thread is assembled from flat, partially ordered batches, how a
//! listing is paged through, how requests are spelled, and how a response
//! changes local state. Sending a request and decoding a body are left to the
//! caller, which hands the outcome back as plain values.

pub mod auth;
pub mod client;
pub mod errors;
pub mod options;
pub mod responses;
pub mod structures;
pub mod text;
