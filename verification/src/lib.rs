//! Tools for user authentication: password hashing with PBKDF2.

pub mod decimal;
pub mod pass;
