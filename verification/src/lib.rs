//! A typed binding for the AnimeThemes.moe REST API.
//!
//! The crate holds the request/response mapping layer of the client: the
//! per-resource include configurations and their serialization into query
//! parameters, request-path building, and the unwrapping of the single-key
//! envelope every response is wrapped in. The HTTP round trip itself is left
//! to the caller.

pub mod envelope;
pub mod error;
pub mod includes;
pub mod join;
pub mod models;
pub mod query;
