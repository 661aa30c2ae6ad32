use vstd::prelude::*;

use argon2::{PasswordHasher, PasswordVerifier};

use crate::error::{ConduitError, ConduitResult};
use crate::users::{NewUser, PasswdHashedNewUser, UserEntity};

verus! {

/// What checking an attempt against a stored hash yields: `None` when the
/// stored string is not a valid hash encoding (a mechanism failure, never a
/// wrong password), otherwise whether the attempt matches.  The outcome is a
/// function of the two strings alone.
pub uninterp spec fn argon2_check_of(stored: Seq<char>, attempt: Seq<char>) -> Option<bool>;

/// Relies on argon2::Argon2::verify_password (and on PasswordHash parsing
/// inside it): `Ok` on a match, `Error::PasswordInvalid` on a mismatch, any
/// other error when the stored string cannot be read as a hash.
#[verifier::external_body]
fn argon2_check(stored: &str, attempt: &str) -> (r: Option<bool>)
    ensures
        r == argon2_check_of(stored@, attempt@),
{
    match argon2::Argon2::default().verify_password(attempt.as_bytes(), stored) {
        Ok(()) => Some(true),
        Err(argon2::password_hash::Error::PasswordInvalid) => Some(false),
        Err(_) => None,
    }
}

/// Relies on argon2::Argon2::hash_password: hashes with a fresh random salt,
/// so two calls on one input differ; whatever hash comes back, verifying the
/// same password against it succeeds.
#[verifier::external_body]
fn argon2_hash(password: &str) -> (r: Option<String>)
    ensures
        r matches Some(h) ==> argon2_check_of(h@, password@) == Some(true),
{
    match argon2::Argon2::default().hash_password(password.as_bytes()) {
        Ok(h) => Some(h.to_string()),
        Err(_) => None,
    }
}

/// Hashes and verifies passwords with a memory-hard hash and a per-call
/// random salt.
pub struct PasswordHashService;

impl PasswordHashService {
    /// Checks an attempt against a stored hash.  A mismatch is an invalid
    /// login; a stored string that is no hash at all is a mechanism failure.
    pub fn verify_password(stored_hashed_password: &str, attempt_password: &str) -> (r:
        ConduitResult<()>)
        ensures
            match argon2_check_of(stored_hashed_password@, attempt_password@) {
                Some(true) => r is Ok,
                Some(false) => r matches Err(e) && e is InvalidLogin,
                None => r matches Err(e) && e is CredentialHashFailure,
            },
    {
        match argon2_check(stored_hashed_password, attempt_password) {
            Some(true) => Ok(()),
            Some(false) => Err(ConduitError::InvalidLogin),
            None => Err(ConduitError::CredentialHashFailure),
        }
    }

    /// Hashes one password with a fresh random salt.  Whatever hash comes
    /// back, verifying the same password against it succeeds.
    pub fn hash_password(password: &str) -> (r: ConduitResult<String>)
        ensures
            match r {
                Ok(h) => argon2_check_of(h@, password@) == Some(true),
                Err(e) => e is CredentialHashFailure,
            },
    {
        match argon2_hash(password) {
            Some(h) => Ok(h),
            None => Err(ConduitError::CredentialHashFailure),
        }
    }

    /// Hashes the password of a complete registration payload.
    pub fn hash_password_newuser(req: NewUser) -> (r: ConduitResult<PasswdHashedNewUser>)
        requires
            req.username is Some,
            req.email is Some,
            req.password is Some,
        ensures
            match r {
                Ok(h) => h.username == req.username->0 && h.email == req.email->0
                    && argon2_check_of(h.password@, req.password->0@) == Some(true),
                Err(e) => e is CredentialHashFailure,
            },
    {
        let password = req.password.unwrap();
        match argon2_hash(password.as_str()) {
            Some(hashed) => Ok(PasswdHashedNewUser::new(req.username.unwrap(), req.email.unwrap(),
                hashed)),
            None => Err(ConduitError::CredentialHashFailure),
        }
    }

    /// Replaces a user row's password with its hash, keeping every other
    /// field.
    pub fn hash_password_user(user: UserEntity) -> (r: ConduitResult<UserEntity>)
        ensures
            match r {
                Ok(u) => u.id == user.id && u.created_at == user.created_at && u.updated_at
                    == user.updated_at && u.username == user.username && u.email == user.email
                    && u.bio == user.bio && u.image == user.image && argon2_check_of(u.password@,
                    user.password@) == Some(true),
                Err(e) => e is CredentialHashFailure,
            },
    {
        match argon2_hash(user.password.as_str()) {
            Some(hashed) => Ok(UserEntity {
                id: user.id,
                created_at: user.created_at,
                updated_at: user.updated_at,
                username: user.username,
                email: user.email,
                password: hashed,
                bio: user.bio,
                image: user.image,
            }),
            None => Err(ConduitError::CredentialHashFailure),
        }
    }
}

} // verus!
