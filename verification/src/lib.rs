//! Decision logic of a multi-tenant task-tracking service: credential
//! handling, signed session tokens, the authentication gate and the
//! transactional partial update of owned tasks.
//!
//! The library never performs I/O. Every handler is a set of functions that
//! say which store query to run next and how to answer once the store has
//! replied; the caller runs the queries and hands the replies back.

pub mod cookie;
pub mod decimal;
pub mod error;
pub mod model;
pub mod store;
pub mod token;
pub mod hasher;
pub mod validation;
pub mod routes;
pub mod laws;
