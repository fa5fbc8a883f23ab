//! A small CRUD service over a single `architectures` table, exposed over
//! HTTP with CORS support.  The library holds everything the service
//! decides: route dispatch, the record model with its JSON encoding and
//! decoding, query-string handling, the model of the stored table, and
//! response building.  The surrounding binary only moves bytes: it reads
//! requests, runs the chosen SQL statement, and writes responses.

pub mod config;
pub mod http;
pub mod json;
pub mod sql;
pub mod parse;
pub mod record;
pub mod service;
pub mod table;
pub mod text;

pub use record::Architecture;
