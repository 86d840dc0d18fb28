//! Handlers of the task routes. Every query they ask for carries the
//! authenticated owner as a predicate.

pub mod create;
pub mod delete;
pub mod list;
pub mod read;
pub mod update;
