//! Authentication and authorization core for a document-store backed REST
//! backend: credential hashing and verification, issuance and validation of
//! signed expiring bearer tokens, role-based request gating, and the login,
//! registration and password-change flows.
//!
//! The surrounding server owns all I/O: it looks user records up in its store,
//! reads the clock, and hands both to the functions here as plain values.

pub mod role;
pub mod error;
pub mod text;
pub mod hashing;
pub mod token;
pub mod guard;
pub mod flows;
