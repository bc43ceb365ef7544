//! Publishing a package to an index.

pub mod admission;
pub mod contents;
pub mod destination;
pub mod errors;
pub mod failures;
pub mod included;
pub mod inspection;
pub mod laws;
pub mod luau;
pub mod notices;
pub mod packing;
pub mod paths;
pub mod rewriting;
pub mod steps;
pub mod summary;
pub mod wording;
pub mod workspace;
