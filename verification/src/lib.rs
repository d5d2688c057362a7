//! Core of a project-scaffolding tool for a web framework: a dialect type
//! catalog, a forward/backward SQL migration engine (authoring, on-disk store
//! convention, ordered runner planning), and template content generation.
//!
//! All logic here is verified. Interactive prompting, filesystem writes and
//! database connections live outside the library and drive it with plain
//! values.

pub mod authoring;
pub mod database;
pub mod runner;
pub mod text;
pub mod timestamp;
pub mod writers;
