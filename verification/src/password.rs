//! Passwords are stored as Argon2 hashes in PHC string form.

use vstd::prelude::*;
use argon2::{PasswordHasher, PasswordVerifier};

verus! {

/// What went wrong inside the password hashing library.
#[verifier::external_type_specification]
#[verifier::external_body]
pub struct ExPasswordHashError(argon2::password_hash::Error);

/// The PHC string that Argon2 with its default parameters computes for a
/// password and a salt, or `None` where it refuses the salt or fails.
pub uninterp spec fn argon2_hash(password: Seq<u8>, salt: Seq<char>) -> Option<Seq<char>>;

/// Whether a piece of text parses as a PHC string.
pub uninterp spec fn is_password_hash(text: Seq<char>) -> bool;

/// Whether Argon2 finds that a password matches a stored PHC string.
pub uninterp spec fn argon2_accepts(password: Seq<u8>, hash: Seq<char>) -> bool;

/// Whether Argon2 hashes with this salt every password of a length that
/// it takes, which is one of at most `0xFFFF_FFFF` bytes.
pub open spec fn hashes_every_password(salt: Seq<char>) -> bool {
    forall|password: Seq<u8>|
        password.len() <= 0xFFFF_FFFF ==> #[trigger] argon2_hash(password, salt) is Some
}

/// A fresh random salt in the text form that hashing takes.
///
/// Trusted: calls `SaltString::generate` on the operating system's random
/// source. Which salt comes is not said; it is sixteen random bytes in the
/// text form that `SaltString::from_b64` reads, and hashing with the
/// default parameters refuses nothing but a salt of under eight bytes and
/// a password of over `0xFFFF_FFFF`, so that [`hashes_every_password`].
#[verifier::external_body]
pub(crate) fn fresh_salt() -> (salt: String)
    ensures
        hashes_every_password(salt@),
{
    argon2::password_hash::SaltString::generate(
        &mut argon2::password_hash::rand_core::OsRng,
    ).as_str().to_owned()
}

/// Hashes a password with a given salt.
///
/// Trusted: calls `SaltString::from_b64` on the salt and
/// `PasswordHasher::hash_password` of `Argon2::default()`, and writes the
/// hash out as text. The result is a function of password and salt alone,
/// named [`argon2_hash`]. A hash that comes back is a PHC string, and
/// verifying the same password against it, which computes the hash anew
/// from the parameters and the salt that the string holds, finds a match.
#[verifier::external_body]
pub(crate) fn hash_with_salt(password: &[u8], salt: &str) -> (hash: Result<
    String,
    argon2::password_hash::Error,
>)
    ensures
        match hash {
            Ok(text) => argon2_hash(password@, salt@) == Some(text@),
            Err(_) => argon2_hash(password@, salt@) is None,
        },
        hash matches Ok(text) ==> is_password_hash(text@) && argon2_accepts(password@, text@),
{
    let salt = argon2::password_hash::SaltString::from_b64(salt)?;
    Ok(argon2::Argon2::default().hash_password(password, &salt)?.to_string())
}

/// Whether a stored hash is a PHC string at all.
///
/// Trusted: calls `PasswordHash::new` and tells success from failure. The
/// result is a function of the text alone, named [`is_password_hash`].
#[verifier::external_body]
pub(crate) fn parses_as_hash(text: &str) -> (well_formed: bool)
    ensures
        well_formed == is_password_hash(text@),
{
    argon2::password_hash::PasswordHash::new(text).is_ok()
}

/// Whether a password matches a stored hash.
///
/// Trusted: parses the hash with `PasswordHash::new` and calls
/// `PasswordVerifier::verify_password` of `Argon2::default()`; a hash that
/// does not parse matches nothing. The result is a function of password and
/// hash alone, named [`argon2_accepts`].
#[verifier::external_body]
pub(crate) fn matches_hash(password: &[u8], hash: &str) -> (accepted: bool)
    ensures
        accepted == argon2_accepts(password@, hash@),
{
    match argon2::password_hash::PasswordHash::new(hash) {
        Ok(parsed) => argon2::Argon2::default().verify_password(password, &parsed).is_ok(),
        Err(_) => false,
    }
}

} // verus!
