//! Core of a tabular-data ingestion and ad-hoc query service.
//!
//! A caller names a file and a SQL statement. The service detects the file's
//! format, describes how to read it, binds that description to a table name,
//! has the statement evaluated against it and renders the outcome as one
//! string. Reading files, evaluating SQL and fetching remote resources are
//! done by a driver outside this crate; every decision in between is made,
//! and proved, here.

pub mod text;
pub mod engine;
pub mod error;
pub mod fetch;
pub mod format;
pub mod namespace;
pub mod options;
pub mod plan;
pub mod query;
pub mod respond;
pub mod table;
