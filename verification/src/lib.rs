//! Path resolution for rustup's directories: legacy layout, XDG layout and
//! explicit environment overrides, with a migration planner between them.
//!
//! Paths are held as `String`s and joined with Unix path rules.

pub mod env;
pub mod config;
pub mod resolver;
pub mod migrate;
pub mod report;
pub mod laws;
pub mod laws_resolution;
pub mod laws_render;
pub mod laws_migration;
