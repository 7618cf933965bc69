//! Data layer of a local note-taking application: the statements that the
//! note repository hands to its store, and the decisions of the schema
//! bootstrap.

pub mod statement;
pub mod commands;
pub mod database;
