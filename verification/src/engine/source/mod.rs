//! Where engines are downloaded from.

pub mod github;
