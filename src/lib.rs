//! A small todo service: the todo model, an in-memory store with exact
//! contracts, the request handlers and the mapping of errors to replies.

pub mod models;
pub mod store;
pub mod error;
pub mod handlers;
pub mod config;
pub mod laws;
