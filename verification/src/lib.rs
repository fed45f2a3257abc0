//! Command aliases for a repository-local build tool.
//!
//! A configuration names reusable *templates* and user-facing *aliases*.
//! Resolving an alias merges its fields with those of the template it refers
//! to and yields one concrete command line.

pub mod config;
pub mod document;
pub mod command;
pub mod parser;
pub mod reader;
pub mod resolver;
pub mod schema;
