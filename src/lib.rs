//! Loads a newline-delimited dump of knowledge-base entities into a
//! relational store: a collision-free key space for all entity namespaces,
//! a closed set of claim values each with its own table, and the per-line
//! decisions of the streaming loader.

pub mod id;
pub mod loader;
pub mod sql;
pub mod record;
pub mod schema;
pub mod value;
