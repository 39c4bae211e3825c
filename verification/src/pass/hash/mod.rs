//! Password hashing functions.

mod crypto;
pub mod pbkdf2;
