//! Memory-hard password hashing with argon2.
use argon2::password_hash::rand_core::OsRng;
use argon2::password_hash::{PasswordHash, PasswordHasher, PasswordVerifier, SaltString};
use argon2::Argon2;
use vstd::prelude::*;
use vstd::utf8::encode_utf8;

verus! {

/// What checking `password` against the stored PHC string gives with argon2's
/// default parameters: `None` where `stored` is no PHC string, else whether the
/// password re-derives the stored digest.
pub uninterp spec fn argon2_check(password: Seq<char>, stored: Seq<char>) -> Option<bool>;

/// Relies on argon2's `Argon2::default().hash_password` with a salt that
/// `SaltString::generate` draws from `OsRng`: the PHC string it writes
/// (`$argon2id$v=19$` and parameters, salt, digest) parses again, and the same
/// password verifies against it. It fails only for passwords over `u32::MAX`
/// bytes (`verify_inputs`); a generated salt is always accepted.
#[verifier::external_body]
pub(crate) fn argon2_hash_fresh(password: &str) -> (r: Option<String>)
    ensures
        r matches Some(h) ==> argon2_check(password@, h@) == Some(true) && h@.len() >= 15
            && h@.subrange(0, 15) == "$argon2id$v=19$"@,
        encode_utf8(password@).len() <= u32::MAX ==> r is Some,
{
    let salt = SaltString::generate(&mut OsRng);
    Argon2::default().hash_password(password.as_bytes(), &salt).ok().map(|h| h.to_string())
}

/// Relies on password-hash's `PasswordHash::new` (fails on text that is no PHC
/// string) and on `Argon2::default().verify_password`, which re-derives with the
/// parameters and salt in the stored string and compares in constant time.
#[verifier::external_body]
pub(crate) fn argon2_verify(password: &str, stored: &str) -> (r: Option<bool>)
    ensures
        r == argon2_check(password@, stored@),
{
    let parsed = PasswordHash::new(stored).ok()?;
    Some(Argon2::default().verify_password(password.as_bytes(), &parsed).is_ok())
}

} // verus!
