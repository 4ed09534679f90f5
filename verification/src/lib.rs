//! Task assignments and task statuses: the request handlers of a small
//! record-keeping service, written against an abstract relational store.
//!
//! A handler borrows a connection, issues one statement, gives the
//! connection back, and turns whatever the store answered into a record, a
//! listing or absence. [`tables::Tables`] says what the store holds and what
//! each statement does to it; [`crud::Store`] is the contract between the
//! handlers and a store, and [`memory::MemoryStore`] is a store that meets
//! it in memory. [`laws`] holds what follows for requests made one after
//! another.

pub mod error;
pub mod models;
pub mod tables;
pub mod respond;
pub mod crud;
pub mod assignments;
pub mod statuses;
pub mod keyed;
pub mod memory;
pub mod laws;
