//! The logic of a small command shell: parsing command lines into
//! pipelines, deciding how a pipeline runs, reading the arguments of the
//! built-in commands and composing what the shell shows.
pub mod parser;
pub mod parser_laws;
pub mod text;
pub mod builtins;
pub mod executor;
pub mod startup;
pub mod session;
