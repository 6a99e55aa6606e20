//! Password hashing through Argon2. The PHC string is a function of the
//! password and the salt alone, and verification is deterministic, so both
//! carry names the login path's contracts share.

use password_hash::{PasswordHasher, PasswordVerifier};
use vstd::prelude::*;

verus! {

/// How hashing or verification failed short of a mismatch.
#[derive(Clone, Copy, Debug, PartialEq, Eq, Structural)]
pub enum HashError {
    /// The hashing library refused the input, or the password did not
    /// match the hash.
    Hash,
    /// A salt or hash was not the text it must be.
    Utf8,
    /// A stored hash was not the text it must be.
    OwnedUtf8,
}

/// The PHC string Argon2 with its default parameters derives for a
/// password and a salt, when the salt is acceptable.
pub uninterp spec fn argon2_phc(pwd: Seq<u8>, salt: Seq<u8>) -> Option<Seq<u8>>;

/// Whether Argon2 verification accepts the password against the stored
/// PHC string.
pub uninterp spec fn argon2_verifies(pwd: Seq<u8>, hash: Seq<u8>) -> bool;

/// Relies on argon2::Argon2::hash_password with default parameters: the
/// PHC string depends on password and salt alone, and (as the
/// password-hash crate documents) verify_password accepts the password
/// against it.
#[verifier::external_body]
fn argon2_hash(pwd: &[u8], salt: &[u8]) -> (r: Result<Vec<u8>, HashError>)
    ensures
        match r {
            Ok(h) => argon2_phc(pwd@, salt@) == Some(h@) && argon2_verifies(pwd@, h@),
            Err(e) => argon2_phc(pwd@, salt@) is None && (e == HashError::Hash || e
                == HashError::Utf8),
        },
{
    let salt_str = core::str::from_utf8(salt).map_err(|_| HashError::Utf8)?;
    let salt = password_hash::Salt::new(salt_str).map_err(|_| HashError::Hash)?;
    let argon = argon2::Argon2::default();
    let hash = argon.hash_password(pwd, &salt).map_err(|_| HashError::Hash)?;
    Ok(hash.to_string().into_bytes())
}

/// Relies on argon2::Argon2::verify_password: a deterministic check of a
/// password against a PHC string; a hash that is not such a string
/// verifies nothing.
#[verifier::external_body]
fn argon2_verify(pwd: &[u8], hash: &[u8]) -> (r: Result<(), HashError>)
    ensures
        r is Ok <==> argon2_verifies(pwd@, hash@),
{
    let hash_str = String::from_utf8(hash.to_vec()).map_err(|_| HashError::OwnedUtf8)?;
    let parsed = password_hash::PasswordHash::new(&hash_str).map_err(|_| HashError::Hash)?;
    let argon = argon2::Argon2::default();
    argon.verify_password(pwd, &parsed).map_err(|_| HashError::Hash)
}

/// Relies on password_hash::SaltString::generate with the system RNG: a
/// fresh random salt; nothing is assumed of its value.
#[verifier::external_body]
pub fn generate_salt() -> (r: Vec<u8>)
{
    password_hash::SaltString::generate(&mut rand_core::OsRng).as_str().as_bytes().to_vec()
}

/// Derive the PHC hash stored for a password.
pub fn hash_password(pwd: &[u8], salt: &[u8]) -> (r: Result<Vec<u8>, HashError>)
    ensures
        match r {
            Ok(h) => argon2_phc(pwd@, salt@) == Some(h@) && argon2_verifies(pwd@, h@),
            Err(e) => argon2_phc(pwd@, salt@) is None && (e == HashError::Hash || e
                == HashError::Utf8),
        },
{
    argon2_hash(pwd, salt)
}

/// Check a password against a stored PHC hash.
pub fn verify_password(pwd: &[u8], hash: &[u8]) -> (r: Result<(), HashError>)
    ensures
        r is Ok <==> argon2_verifies(pwd@, hash@),
{
    argon2_verify(pwd, hash)
}

} // verus!
