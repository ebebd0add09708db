//! The flows that a request sets off.

pub mod auth;
pub mod laws;
