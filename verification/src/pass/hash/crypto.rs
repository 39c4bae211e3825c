//! The calls into the cryptographic crates: PBKDF2 over HMAC with each of the
//! supported hash functions, and the operating system's random generator.
//!
//! PBKDF2 is specified in RFC 8018; its output takes pages to state, so each
//! derivation has a name for its result, a function of the password, the
//! salt, the round count and the requested length.

use vstd::prelude::*;

verus! {

/// The key that `pbkdf2::pbkdf2::<hmac::Hmac<sha1::Sha1>>` derives.
pub uninterp spec fn pbkdf2_hmac_sha1(password: Seq<u8>, salt: Seq<u8>, rounds: usize, len: usize) -> Seq<u8>;

/// The key that `pbkdf2::pbkdf2::<hmac::Hmac<sha2::Sha224>>` derives.
pub uninterp spec fn pbkdf2_hmac_sha224(password: Seq<u8>, salt: Seq<u8>, rounds: usize, len: usize) -> Seq<u8>;

/// The key that `pbkdf2::pbkdf2::<hmac::Hmac<sha2::Sha256>>` derives.
pub uninterp spec fn pbkdf2_hmac_sha256(password: Seq<u8>, salt: Seq<u8>, rounds: usize, len: usize) -> Seq<u8>;

/// The key that `pbkdf2::pbkdf2::<hmac::Hmac<sha2::Sha384>>` derives.
pub uninterp spec fn pbkdf2_hmac_sha384(password: Seq<u8>, salt: Seq<u8>, rounds: usize, len: usize) -> Seq<u8>;

/// The key that `pbkdf2::pbkdf2::<hmac::Hmac<sha2::Sha512>>` derives.
pub uninterp spec fn pbkdf2_hmac_sha512(password: Seq<u8>, salt: Seq<u8>, rounds: usize, len: usize) -> Seq<u8>;

/// The key that `pbkdf2::pbkdf2::<hmac::Hmac<sha2::Sha512Trunc224>>` derives.
pub uninterp spec fn pbkdf2_hmac_sha512_224(password: Seq<u8>, salt: Seq<u8>, rounds: usize, len: usize) -> Seq<u8>;

/// The key that `pbkdf2::pbkdf2::<hmac::Hmac<sha2::Sha512Trunc256>>` derives.
pub uninterp spec fn pbkdf2_hmac_sha512_256(password: Seq<u8>, salt: Seq<u8>, rounds: usize, len: usize) -> Seq<u8>;

/// Calls `pbkdf2::pbkdf2::<hmac::Hmac<sha1::Sha1>>` on a zeroed buffer of `len` bytes.
/// Trusted: the buffer comes back with its length and holds
/// `pbkdf2_hmac_sha1` of the arguments.
#[verifier::external_body]
pub(crate) fn derive_sha1(password: &[u8], salt: &[u8], rounds: usize, len: usize) -> (key: Vec<u8>)
    ensures
        key@ == pbkdf2_hmac_sha1(password@, salt@, rounds, len),
        key@.len() == len,
{
    let mut key = vec![0u8; len];
    pbkdf2::pbkdf2::<hmac::Hmac<sha1::Sha1>>(password, salt, rounds, &mut key);
    key
}

/// Calls `pbkdf2::pbkdf2::<hmac::Hmac<sha2::Sha224>>` on a zeroed buffer of `len` bytes.
/// Trusted: the buffer comes back with its length and holds
/// `pbkdf2_hmac_sha224` of the arguments.
#[verifier::external_body]
pub(crate) fn derive_sha224(password: &[u8], salt: &[u8], rounds: usize, len: usize) -> (key: Vec<u8>)
    ensures
        key@ == pbkdf2_hmac_sha224(password@, salt@, rounds, len),
        key@.len() == len,
{
    let mut key = vec![0u8; len];
    pbkdf2::pbkdf2::<hmac::Hmac<sha2::Sha224>>(password, salt, rounds, &mut key);
    key
}

/// Calls `pbkdf2::pbkdf2::<hmac::Hmac<sha2::Sha256>>` on a zeroed buffer of `len` bytes.
/// Trusted: the buffer comes back with its length and holds
/// `pbkdf2_hmac_sha256` of the arguments.
#[verifier::external_body]
pub(crate) fn derive_sha256(password: &[u8], salt: &[u8], rounds: usize, len: usize) -> (key: Vec<u8>)
    ensures
        key@ == pbkdf2_hmac_sha256(password@, salt@, rounds, len),
        key@.len() == len,
{
    let mut key = vec![0u8; len];
    pbkdf2::pbkdf2::<hmac::Hmac<sha2::Sha256>>(password, salt, rounds, &mut key);
    key
}

/// Calls `pbkdf2::pbkdf2::<hmac::Hmac<sha2::Sha384>>` on a zeroed buffer of `len` bytes.
/// Trusted: the buffer comes back with its length and holds
/// `pbkdf2_hmac_sha384` of the arguments.
#[verifier::external_body]
pub(crate) fn derive_sha384(password: &[u8], salt: &[u8], rounds: usize, len: usize) -> (key: Vec<u8>)
    ensures
        key@ == pbkdf2_hmac_sha384(password@, salt@, rounds, len),
        key@.len() == len,
{
    let mut key = vec![0u8; len];
    pbkdf2::pbkdf2::<hmac::Hmac<sha2::Sha384>>(password, salt, rounds, &mut key);
    key
}

/// Calls `pbkdf2::pbkdf2::<hmac::Hmac<sha2::Sha512>>` on a zeroed buffer of `len` bytes.
/// Trusted: the buffer comes back with its length and holds
/// `pbkdf2_hmac_sha512` of the arguments.
#[verifier::external_body]
pub(crate) fn derive_sha512(password: &[u8], salt: &[u8], rounds: usize, len: usize) -> (key: Vec<u8>)
    ensures
        key@ == pbkdf2_hmac_sha512(password@, salt@, rounds, len),
        key@.len() == len,
{
    let mut key = vec![0u8; len];
    pbkdf2::pbkdf2::<hmac::Hmac<sha2::Sha512>>(password, salt, rounds, &mut key);
    key
}

/// Calls `pbkdf2::pbkdf2::<hmac::Hmac<sha2::Sha512Trunc224>>` on a zeroed buffer of `len` bytes.
/// Trusted: the buffer comes back with its length and holds
/// `pbkdf2_hmac_sha512_224` of the arguments.
#[verifier::external_body]
pub(crate) fn derive_sha512_224(password: &[u8], salt: &[u8], rounds: usize, len: usize) -> (key: Vec<u8>)
    ensures
        key@ == pbkdf2_hmac_sha512_224(password@, salt@, rounds, len),
        key@.len() == len,
{
    let mut key = vec![0u8; len];
    pbkdf2::pbkdf2::<hmac::Hmac<sha2::Sha512Trunc224>>(password, salt, rounds, &mut key);
    key
}

/// Calls `pbkdf2::pbkdf2::<hmac::Hmac<sha2::Sha512Trunc256>>` on a zeroed buffer of `len` bytes.
/// Trusted: the buffer comes back with its length and holds
/// `pbkdf2_hmac_sha512_256` of the arguments.
#[verifier::external_body]
pub(crate) fn derive_sha512_256(password: &[u8], salt: &[u8], rounds: usize, len: usize) -> (key: Vec<u8>)
    ensures
        key@ == pbkdf2_hmac_sha512_256(password@, salt@, rounds, len),
        key@.len() == len,
{
    let mut key = vec![0u8; len];
    pbkdf2::pbkdf2::<hmac::Hmac<sha2::Sha512Trunc256>>(password, salt, rounds, &mut key);
    key
}

/// Fills `len` bytes from the operating system's random generator, through
/// `rand::RngCore::fill_bytes` on `rand::rngs::OsRng`.
/// Trusted: the result has `len` bytes. Their values are left unsaid: they are
/// random. The call panics where the operating system cannot supply random
/// bytes, which depends on no argument.
#[verifier::external_body]
pub(crate) fn os_random_bytes(len: usize) -> (bytes: Vec<u8>)
    ensures
        bytes@.len() == len,
{
    let mut bytes = vec![0u8; len];
    rand::RngCore::fill_bytes(&mut rand::rngs::OsRng, &mut bytes);
    bytes
}

} // verus!
