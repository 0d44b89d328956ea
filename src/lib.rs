//! Core of a personal expense tracker: request validation, the record model,
//! an append-only record store with its queries, and the mapping of outcomes
//! to HTTP status codes.

pub mod model;
pub mod store;
pub mod interop;
pub mod row;
pub mod service;
pub mod http;
pub mod lemmas;
