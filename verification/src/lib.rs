//! Conversion of delimited text into typed, batch-oriented columns.
//!
//! The crate turns the bytes of a delimited-text file into batches of typed
//! columns under a fixed schema, and infers that schema from a sample of the
//! file where none is given.
//!
//! - [`physical_exec`] holds the two operations: [`physical_exec::infer_schema`]
//!   and the pull-based [`physical_exec::CsvStream`].
//! - [`guarantees`] holds the laws that the two obey.
//! - [`schema`] and [`batch`] hold the data model: fields and schemas, typed
//!   columns and batches.
//! - [`text`] recognises and parses what a cell holds.
//! - [`tokenizer`] is the boundary to the `csv` crate, which splits bytes into
//!   records.
//! - [`file_format`], [`file_source`] and [`object_store_reader`] hold the
//!   configuration of the format and of the tables and files that it is read
//!   from.
//!
//! Each function carries a contract over a mathematical model of its data,
//! and the verified ones do not panic. Four things are taken on trust, each
//! with a contract that states no more than its source or documentation
//! shows: the `csv` reader behind [`tokenizer`], the `url` crate's parser
//! behind `file_source::http_store_base_url`, std's `Path::extension` behind
//! `file_source::plan_table`, and the specification of `String::push` in
//! [`text`]. Everything else is verified.

pub mod batch;
pub mod error;
pub mod file_format;
pub mod file_source;
pub mod guarantees;
pub mod object_store_reader;
pub mod physical_exec;
pub mod schema;
pub mod text;
pub mod tokenizer;
