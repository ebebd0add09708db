//! Credential issuance and per-principal keyed tokens.
//!
//! Three layers, leaves first:
//!
//! - [`db`]: the credential store, its records ([`models`]) and the
//!   constraints it maintains;
//! - [`jwt`]: the token service, which signs and checks claims with a key
//!   that the caller supplies;
//! - [`endpoints`]: the flows that compose the two: registration, login,
//!   verification, redemption, refresh.
//!
//! All of it is verified but the calls into other crates, which stand in
//! [`jwt::codec`], [`password`], [`validation`], [`clock`] and the private
//! module for fresh identifiers. Each of them says what it takes on trust.

mod ident;

pub mod clock;
pub mod db;
pub mod endpoints;
pub mod jwt;
pub mod models;
pub mod password;
pub mod services;
pub mod text;
pub mod validation;
