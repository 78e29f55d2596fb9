//! Core of a SigMF signal-recording browser: parses per-file metadata into a
//! typed model, projects each file into flat summary rows, assembles many
//! files into one table, and evaluates per-column filter predicates on it.

pub mod dataset;
pub mod datatypes;
pub mod errors;
pub mod filter;
pub mod metadata;
pub mod numeric;
pub mod parser;
pub mod pathnames;
pub mod row;
pub mod strutil;
