//! The decisions of the pesde package manager's command line, verified.

pub mod cli;
pub mod engine;
pub mod failure;
pub mod git_url;
pub mod joined_path;
pub mod keyed;
pub mod project;
pub mod query;
pub mod relative;
pub mod search;
pub mod text;
pub mod version;
