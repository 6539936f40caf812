//! The decisions of a desktop application's engine supervisor, verified.
//!
//! The application delegates its work to an external command-line engine.
//! This crate decides how that engine is found, started, watched and stopped,
//! and what the collaborating operations (diagnostics, installs, the
//! configuration file, skill imports) come to. It performs no input or
//! output: the host application hands in what the operating system said, as
//! plain values, and carries out what is decided here.

pub mod command;
pub mod config;
pub mod doctor;
pub mod engine;
pub mod install;
pub mod path;
pub mod report;
pub mod resolver;
pub mod skill;
pub mod text;
