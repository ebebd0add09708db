//! Token service: signed, short-lived proofs of identity.
//!
//! The service holds no state. Every call is given the key to sign or check
//! with, which is the secret of the principal that the token speaks for.

pub mod claims;
pub mod codec;
pub mod error;
pub mod jwt;
pub mod manager;
