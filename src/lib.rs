//! Data-access layer of a todo list kept in an embedded SQL store.
//!
//! The library holds everything that decides: the one-time pool slot, the
//! statements sent to the store with their bound parameters, the typed decode
//! of the rows that come back, and the classification of each outcome. The
//! asynchronous driver that sends a statement and awaits the reply lives with
//! the caller, which hands the rows back as plain values.
//!
//! `store` gives the meaning of each statement as a relation over a model of
//! the `todos` table; `laws` proves the repository's guarantees over it.

pub mod connection;
pub mod error;
pub mod laws;
pub mod repository;
pub mod row;
pub mod statement;
pub mod store;
pub mod todo;
