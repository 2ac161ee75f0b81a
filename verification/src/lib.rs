//! Mirrors rows of a relational source into a search index and answers
//! queries written in a compact query language.
//!
//! The crate holds the decisions of that system: the query grammar, the
//! compilation of queries against the field table of the index, the
//! construction of documents from source rows, the checkpoint rules of the
//! synchronisation worker and the commit protocol of the index wrapper.
//! Input and output (the datasource, the index directory, the checkpoint
//! file, HTTP) are performed by the program built around it.

pub mod config;
pub mod document;
pub mod engine;
pub mod error;
pub mod handler;
pub mod index;
pub mod parser;
pub mod text;
pub mod worker;
