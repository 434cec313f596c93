//! Resolution of a build tool's workspace metadata into a compiler project
//! configuration: crate roots plus global and per-crate settings.

pub mod config;
pub mod laws;
pub mod metadata;
pub mod ordered;
pub mod resolve;
pub mod select;
pub mod settings;
pub mod text;
pub mod values;
