//! Password hashing and verification, delegated to the `password_auth` crate.

use vstd::prelude::*;

verus! {

/// Longest plaintext, in characters, that is handed to the hasher. It keeps
/// the UTF-8 byte length of the plaintext under the hash function's input
/// limit, so hashing cannot fail.
pub const MAX_PLAINTEXT_LEN: usize = 0x40000000;

/// Whether the external password verifier accepts `password` against `hash`.
/// The outcome is a function of the two strings alone.
pub uninterp spec fn verify_ok(password: Seq<char>, hash: Seq<char>) -> bool;

/// Relies on `password_auth::verify_password`: it parses the hash string and
/// checks the password against it, and its outcome depends only on the
/// password bytes and the hash string.
#[verifier::external_body]
pub(crate) fn verify_matches(password: &str, hash: &str) -> (r: bool)
    ensures
        r == verify_ok(password@, hash@),
{
    password_auth::verify_password(password, hash).is_ok()
}

/// Relies on `password_auth::generate_hash`: it returns a PHC-formatted
/// string, which always begins with `'$'`, and `password_auth::verify_password`
/// accepts the hashed password against that string. The salt is drawn fresh,
/// so nothing else is promised about the returned text.
#[verifier::external_body]
pub(crate) fn hash_password(password: &str) -> (r: String)
    requires
        password@.len() < MAX_PLAINTEXT_LEN,
    ensures
        verify_ok(password@, r@),
        r@.len() > 0,
        r@[0] == '$',
{
    password_auth::generate_hash(password)
}

} // verus!
