//! The records of the credential store and the bodies of requests.

pub mod auth;
pub mod users;
