//! A data-access layer over one table: parameter types, statement rendering with
//! positional placeholders, mapping of backend outcomes, and an in-memory store.

pub mod repository;
pub mod statement;
pub mod outcome;
pub mod request;
pub mod memory;
pub mod marshal;
