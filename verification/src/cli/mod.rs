//! The command line.

pub mod commands;
pub mod dirs;
pub mod engines;
pub mod identifiers;
pub mod index;
pub mod lockfile;
pub mod members;
pub mod overrides;
pub mod project_engines;
pub mod report;
