use crate::utils::account_email::AccountEmail;
use crate::utils::user_id::UserId;
use argon2::PasswordVerifier;
use vstd::prelude::*;

verus! {

/// Whether `argon2::PasswordHash::new` accepts the text as a PHC hash string.
pub uninterp spec fn phc_parses(hash: Seq<char>) -> bool;

/// Whether `Argon2::default().verify_password` accepts the password bytes against the
/// parsed PHC hash string.
pub uninterp spec fn argon2_accepts(hash: Seq<char>, password: Seq<u8>) -> bool;

#[verifier::external_type_specification]
#[verifier::external_body]
pub struct ExPasswordHashError(argon2::password_hash::Error);

/// Calls `argon2::PasswordHash::new` on `hash` and, where it parses, checks `password`
/// against it with `Argon2::default().verify_password`.
/// Claimed: the parse fails exactly when `hash` is not a PHC string, and otherwise the
/// result tells whether the verification succeeded.
#[verifier::external_body]
fn verify_against_phc(hash: &str, password: &[u8]) -> (r: Result<bool, argon2::password_hash::Error>)
    ensures
        r is Err <==> !phc_parses(hash@),
        r matches Ok(b) ==> b == argon2_accepts(hash@, password@),
{
    let parsed = argon2::PasswordHash::new(hash)?;
    Ok(argon2::Argon2::default().verify_password(password, &parsed).is_ok())
}

/// Why credentials were refused.
#[derive(Debug, Clone, Copy, PartialEq, Eq, Structural)]
pub enum InvalidCredentialsReason {
    /// No account has the e-mail address.
    UnknownEmail,
    /// The password does not match the stored hash.
    WrongPassword,
}

/// A failure that is not the user's doing.
#[derive(Debug, Clone, Copy, PartialEq, Eq, Structural)]
pub enum UnexpectedReason {
    /// The stored hash is not a PHC string.
    MalformedStoredHash,
    /// A new password could not be hashed.
    HashingFailed,
    /// The account store could not be read.
    StoreFailed,
    /// The new password could not be written to the account store.
    PasswordUpdateFailed,
}

/// The outcome of a refused authentication.
#[derive(Debug, Clone, Copy, PartialEq, Eq, Structural)]
pub enum AuthError {
    /// The credentials do not name an account with that password.
    InvalidCredentials(InvalidCredentialsReason),
    /// Something other than the credentials failed.
    UnexpectedError(UnexpectedReason),
}

impl AuthError {
    /// The text shown for the error.
    pub fn message(&self) -> (r: &'static str)
        ensures
            r@ == (match self {
                AuthError::InvalidCredentials(_) => "Invalid credentials"@,
                AuthError::UnexpectedError(UnexpectedReason::MalformedStoredHash) => "Failed to parse hash in PHC string format."@,
                AuthError::UnexpectedError(UnexpectedReason::HashingFailed) => "Failed to hash password"@,
                AuthError::UnexpectedError(UnexpectedReason::StoreFailed) => "Failed to fetch credentials from stored account"@,
                AuthError::UnexpectedError(UnexpectedReason::PasswordUpdateFailed) => "Failed to change password in database"@,
            }),
    {
        match self {
            AuthError::InvalidCredentials(_) => "Invalid credentials",
            AuthError::UnexpectedError(UnexpectedReason::MalformedStoredHash) => "Failed to parse hash in PHC string format.",
            AuthError::UnexpectedError(UnexpectedReason::HashingFailed) => "Failed to hash password",
            AuthError::UnexpectedError(UnexpectedReason::StoreFailed) => "Failed to fetch credentials from stored account",
            AuthError::UnexpectedError(UnexpectedReason::PasswordUpdateFailed) => "Failed to change password in database",
        }
    }
}

/// An e-mail address and a password offered for authentication.
pub struct Credentials {
    pub email: AccountEmail,
    pub password: String,
}

/// An account's identifier with its stored password hash.
pub struct StoredCredentials {
    pub user_id: UserId,
    pub password_hash: String,
}

/// The hash checked when no account matches, so that a refusal takes as long either way.
pub open spec fn spec_dummy_hash() -> Seq<char> {
    "$argon2id$v=19$m=15000,t=2,p=1$gZiV/M1gPc22ElAH/Jh1Hw$CWOrkoo7oJBQ/iyh7uJ0LO2aLEfrHwTWllSAxT0zRno"@
}

fn dummy_password_hash() -> (r: &'static str)
    ensures
        r@ == spec_dummy_hash(),
{
    "$argon2id$v=19$m=15000,t=2,p=1$gZiV/M1gPc22ElAH/Jh1Hw$CWOrkoo7oJBQ/iyh7uJ0LO2aLEfrHwTWllSAxT0zRno"
}

/// What checking `password` against the stored `hash` gives.
pub open spec fn password_check(hash: Seq<char>, password: Seq<char>) -> Result<(), AuthError> {
    if !phc_parses(hash) {
        Err(AuthError::UnexpectedError(UnexpectedReason::MalformedStoredHash))
    } else if !argon2_accepts(hash, vstd::utf8::encode_utf8(password)) {
        Err(AuthError::InvalidCredentials(InvalidCredentialsReason::WrongPassword))
    } else {
        Ok(())
    }
}

/// What authenticating `password` gives, given the account found for the e-mail address
/// (its identifier and stored hash), if any.
pub open spec fn credentials_outcome(stored: Option<(u128, Seq<char>)>, password: Seq<char>) -> Result<u128, AuthError> {
    match stored {
        Some((user, hash)) => match password_check(hash, password) {
            Ok(_) => Ok(user),
            Err(e) => Err(e),
        },
        None => match password_check(spec_dummy_hash(), password) {
            Ok(_) => Err(AuthError::InvalidCredentials(InvalidCredentialsReason::UnknownEmail)),
            Err(e) => Err(e),
        },
    }
}

/// The stored account as plain values.
pub open spec fn stored_view(stored: Option<StoredCredentials>) -> Option<(u128, Seq<char>)> {
    match stored {
        Some(s) => Some((s.user_id@, s.password_hash@)),
        None => None,
    }
}

/// Checks `password_candidate` against the PHC hash string `expected_password_hash`.
pub fn verify_password_hash(expected_password_hash: &str, password_candidate: &str) -> (r: Result<(), AuthError>)
    ensures
        r == password_check(expected_password_hash@, password_candidate@),
{
    match verify_against_phc(expected_password_hash, password_candidate.as_bytes()) {
        Err(_) => Err(AuthError::UnexpectedError(UnexpectedReason::MalformedStoredHash)),
        Ok(true) => Ok(()),
        Ok(false) => Err(AuthError::InvalidCredentials(InvalidCredentialsReason::WrongPassword)),
    }
}

/// Authenticates `credentials` against the account found for their e-mail address.
/// The password is checked against the stored hash, or against a fixed hash when no
/// account was found, and the account's identifier is returned only when one was found
/// and the password matches.
pub fn validate_credentials(credentials: Credentials, stored: Option<StoredCredentials>) -> (r: Result<UserId, AuthError>)
    ensures
        match r {
            Ok(id) => credentials_outcome(stored_view(stored), credentials.password@) == Ok::<u128, AuthError>(id@),
            Err(e) => credentials_outcome(stored_view(stored), credentials.password@) == Err::<u128, AuthError>(e),
        },
{
    let ghost stored_plain = stored_view(stored);
    let (user_id, expected_password_hash) = match stored {
        Some(s) => (Some(s.user_id), s.password_hash),
        None => (None, dummy_password_hash().to_owned()),
    };
    let checked = verify_password_hash(expected_password_hash.as_str(), credentials.password.as_str());
    match checked {
        Err(e) => Err(e),
        Ok(()) => match user_id {
            Some(id) => Ok(id),
            None => Err(AuthError::InvalidCredentials(InvalidCredentialsReason::UnknownEmail)),
        },
    }
}

/// When no account has the e-mail address, authentication never succeeds.
pub proof fn lemma_unknown_email_is_refused(password: Seq<char>)
    ensures
        credentials_outcome(None, password) is Err,
{
}

/// Authentication succeeds exactly when an account was found and the password passes
/// the check against its stored hash; it then names that account.
pub proof fn lemma_accepted_iff_password_matches(stored: Option<(u128, Seq<char>)>, password: Seq<char>, user: u128)
    ensures
        credentials_outcome(stored, password) == Ok::<u128, AuthError>(user) <==> (stored matches Some(
            (u, h),
        ) && u == user && password_check(h, password) == Ok::<(), AuthError>(())),
{
}

} // verus!
