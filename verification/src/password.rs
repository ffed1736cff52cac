//! Password hashing and checking with Argon2 (PHC string format).
use vstd::prelude::*;
use argon2::password_hash::{PasswordHasher, PasswordVerifier};

verus! {

/// The reason a PHC string is rejected by `PasswordHash::new`, as its
/// `Display` text; `None` when the string parses.
pub uninterp spec fn phc_parse_error(phc: Seq<char>) -> Option<Seq<char>>;

/// Whether Argon2 (default parameters) accepts `password` for the parsed PHC
/// string `phc`.
pub uninterp spec fn argon2_accepts(password: Seq<char>, phc: Seq<char>) -> bool;

/// `argon2::password_hash::PasswordHash::new`, reduced to its error.
/// Trusted: the result is named by `phc_parse_error`, a function of the text
/// alone (`None` when parsing succeeds, else the error's `Display` text).
#[verifier::external_body]
pub(crate) fn phc_error(phc: &str) -> (r: Option<String>)
    ensures
        r is None <==> phc_parse_error(phc@) is None,
        r matches Some(e) ==> phc_parse_error(phc@) == Some(e@),
{
    match argon2::password_hash::PasswordHash::new(phc) {
        Ok(_) => None,
        Err(e) => Some(e.to_string()),
    }
}

/// `PasswordVerifier::verify_password` of `Argon2::default()` on the parsed
/// PHC string. Trusted: the result is named by `argon2_accepts`, a function of
/// the password and the PHC string alone (`true` when verification returns
/// `Ok`).
#[verifier::external_body]
pub(crate) fn argon2_verify(password: &str, phc: &str) -> (b: bool)
    requires
        phc_parse_error(phc@) is None,
    ensures
        b == argon2_accepts(password@, phc@),
{
    match argon2::password_hash::PasswordHash::new(phc) {
        Ok(hash) => argon2::Argon2::default().verify_password(password.as_bytes(), &hash).is_ok(),
        Err(_) => false,
    }
}

/// `PasswordHasher::hash_password` of `Argon2::default()` with a fresh salt
/// from the operating system's generator, as a PHC string; the error's
/// `Display` text on failure. Trusted: the salt is random, so the hash is not
/// named; the contract claims only the round trip that the crate documents:
/// the PHC string parses, and Argon2 verification accepts the password for it;
/// and hashing succeeds for a password of at most `u32::MAX` bytes (the only
/// check that the default parameters and a generated salt can fail).
#[verifier::external_body]
pub(crate) fn argon2_hash(password: &str) -> (r: Result<String, String>)
    ensures
        vstd::utf8::encode_utf8(password@).len() <= 0xFFFF_FFFF ==> r is Ok,
        r matches Ok(h) ==> phc_parse_error(h@) is None && argon2_accepts(password@, h@),
{
    let salt = argon2::password_hash::SaltString::generate(&mut argon2::password_hash::rand_core::OsRng);
    match argon2::Argon2::default().hash_password(password.as_bytes(), &salt) {
        Ok(hash) => Ok(hash.to_string()),
        Err(e) => Err(e.to_string()),
    }
}

} // verus!
