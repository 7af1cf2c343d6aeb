//! Logging in with an e-mail address and a password.

use crate::data::user::User;
use crate::error::{DenimError, DenimResult};
use vstd::prelude::*;

verus! {

/// What someone logs in with.
#[derive(Clone, Debug)]
pub enum DenimAuthCredentials {
    EmailPassword { email: String, password: String },
}

/// Why `bcrypt` could not hash or verify. Nothing of what it holds is
/// visible here.
#[verifier::external_type_specification]
#[verifier::external_body]
pub struct ExBcryptError(bcrypt::BcryptError);

/// Whether `password` is the password that `hash` was made of, as `bcrypt`
/// finds by hashing it again with the salt and cost that `hash` names; or
/// nothing where `hash` is no hash that `bcrypt` can read.
pub uninterp spec fn bcrypt_verified(password: Seq<char>, hash: Seq<char>) -> Option<bool>;

/// `bcrypt::verify`. Trusted: its answer is the named function of the
/// password and the hash.
#[verifier::external_body]
fn bcrypt_verify(password: &str, hash: &str) -> (verified: Result<bool, bcrypt::BcryptError>)
    ensures
        verified matches Ok(same) ==> bcrypt_verified(password@, hash@) == Some(same),
        verified is Err ==> bcrypt_verified(password@, hash@) is None,
{
    bcrypt::verify(password, hash)
}

/// `bcrypt::hash` at `bcrypt::DEFAULT_COST`, which salts the password with
/// random bytes. Trusted: a hash that it gives is one that `bcrypt::verify`
/// finds to be made of the password, because `verify` hashes the password
/// again with the salt and cost that the hash names. Nothing else is
/// promised of the hash.
#[verifier::external_body]
fn bcrypt_hash(password: &str) -> (hashed: Result<String, bcrypt::BcryptError>)
    ensures
        hashed matches Ok(hash) ==> bcrypt_verified(password@, hash@) == Some(true),
{
    bcrypt::hash(password, bcrypt::DEFAULT_COST)
}

/// The `Display` of `bcrypt::BcryptError`: the text of the failure. Trusted,
/// and nothing is promised of the text.
#[verifier::external_body]
fn bcrypt_error_text(error: &bcrypt::BcryptError) -> (text: String) {
    error.to_string()
}

/// Hashes `password` for storing. The hash is one that `verify_password`
/// finds `password` to fit; hashing the same password twice gives two
/// hashes.
pub fn hash_password(password: &str) -> (hashed: DenimResult<String>)
    ensures
        hashed matches Ok(hash) ==> bcrypt_verified(password@, hash@) == Some(true),
        hashed matches Err(e) ==> e is Bcrypt,
{
    match bcrypt_hash(password) {
        Ok(hashed) => Ok(hashed),
        Err(e) => Err(DenimError::Bcrypt { source: bcrypt_error_text(&e) }),
    }
}

/// Whether `password` is the password that `hash` was made of.
pub fn verify_password(password: &str, hash: &str) -> (verified: DenimResult<bool>)
    ensures
        match verified {
            Ok(same) => bcrypt_verified(password@, hash@) == Some(same),
            Err(e) => e is Bcrypt && bcrypt_verified(password@, hash@) is None,
        },
{
    match bcrypt_verify(password, hash) {
        Ok(same) => Ok(same),
        Err(e) => Err(DenimError::Bcrypt { source: bcrypt_error_text(&e) }),
    }
}

/// Who is logged in by a password, given the user that has the e-mail
/// address, if there is one, and what the check of the password came to, if
/// the user has a password: the user, if the password is the right one, and
/// no one otherwise.
pub fn authenticated(user: Option<User>, checked: Option<DenimResult<bool>>) -> (logged_in:
    DenimResult<Option<User>>)
    ensures
        logged_in == match (user, checked) {
            (Some(u), Some(Ok(true))) => Ok::<Option<User>, DenimError>(Some(u)),
            (Some(_), Some(Err(e))) => Err(e),
            _ => Ok(None),
        },
{
    match user {
        Some(u) => match checked {
            Some(Ok(true)) => Ok(Some(u)),
            Some(Ok(false)) => Ok(None),
            Some(Err(e)) => Err(e),
            None => Ok(None),
        },
        None => Ok(None),
    }
}

/// Logs in the user that has the e-mail address, if there is one, with
/// `password`: the user is logged in if it has a password and `password`
/// is that password. A user without a password cannot log in this way.
pub fn authenticate(user: Option<User>, password: &str) -> (logged_in: DenimResult<Option<User>>)
    ensures
        match user {
            None => logged_in == Ok::<Option<User>, DenimError>(None),
            Some(u) => match u.bcrypt_hashed_password {
                None => logged_in == Ok::<Option<User>, DenimError>(None),
                Some(hash) => match bcrypt_verified(password@, hash@) {
                    Some(true) => logged_in == Ok::<Option<User>, DenimError>(Some(u)),
                    Some(false) => logged_in == Ok::<Option<User>, DenimError>(None),
                    None => logged_in matches Err(e) && e is Bcrypt,
                },
            },
        },
{
    let checked = match &user {
        Some(u) => match &u.bcrypt_hashed_password {
            Some(hash) => Some(verify_password(password, hash.as_str())),
            None => None,
        },
        None => None,
    };
    authenticated(user, checked)
}

} // verus!
