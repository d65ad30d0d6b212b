//! Core library of the `am` command-line tool: a registry of projects and
//! templates backed by an embedded relational store, with a versioned,
//! checksummed schema-migration engine, a structured error taxonomy mapped to
//! process exit codes, and a presentation contract with interactive and JSON
//! renderers.

pub mod app;
pub mod commands;
pub mod database;
pub mod errors;
pub mod input;
pub mod logger;
pub mod presentation;
