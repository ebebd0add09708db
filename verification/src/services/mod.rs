//! What is handed to collaborators outside the core.

pub mod email;
