//! A browser for the tables of a MySQL schema that is known only at run
//! time: it discovers tables, columns and foreign keys, builds every
//! statement it sends, and turns fetched rows into JSON-compatible
//! values.
//!
//! The library does no input or output. An [`operation::Operation`] says
//! which statement to send next; the caller sends it and reports what
//! came back. No table or column name is written into statement text
//! before it was found among the names fetched during the same
//! operation.

pub mod catalog;
pub mod codec;
pub mod connection;
pub mod error;
pub mod names;
pub mod operation;
pub mod query;
pub mod schema;
pub mod temporal;
pub mod text;
pub mod value;
