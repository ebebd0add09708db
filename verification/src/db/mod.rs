//! The credential store.

pub mod database;
pub mod error;
pub mod lemmas;
pub mod model;
