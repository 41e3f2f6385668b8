//! A build-time SQL analysis and typed-binding library, with the HTML and
//! CSS helpers that accompany it.
//!
//! The core takes an ordered list of named SQL statement definitions, folds
//! the DDL among them into a running schema, classifies every statement's
//! columns into bound-parameter (input) and result (output) columns, decides
//! the statement's return shape, and emits a typed accessor description per
//! statement.  Semantic errors (unknown tables or columns, placeholder-count
//! mismatches, incomplete RETURNING lists) are reported as values before any
//! accessor is produced.

pub mod ast;
pub mod classify;
pub mod css;
pub mod elements;
pub mod emit;
pub mod error;
pub mod generate;
pub mod html;
pub mod laws;
pub mod model;
pub mod outcome;
pub mod resolve;
pub mod schema;
pub mod strings;
pub mod viewlib;
