//! Authentication core of a small record service: password hashing, signed
//! session tokens, and the per-request guard that resolves a principal.
pub mod credentials;
pub mod guard;
pub mod models;
pub mod token;
