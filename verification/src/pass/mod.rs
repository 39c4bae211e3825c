//! Password handling.

use vstd::prelude::*;

pub mod hash;

verus! {

/// Errors reported by the password hashing functions.
#[derive(Clone, Copy, Debug, PartialEq, Eq, Structural)]
pub enum ErrorCode {
    /// A parameter, its value or a salt was rejected.
    InvalidPasswordFormat,
}

} // verus!
