//! Commands for authentication.

pub mod device_flow;
pub mod login;
