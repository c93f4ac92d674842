use crate::authentication::credentials::{
    credentials_outcome, stored_view, validate_credentials, AuthError, Credentials,
    StoredCredentials,
};
use crate::authentication::change_password::{hashes_password, lemma_changed_password_authenticates};
use crate::authentication::token::{
    generate_jwt_at, issued_for, jwt_three_parts, token_issued, utc_now, EXPIRATION_SECONDS,
    MAX_UTC_TIMESTAMP, MIN_UTC_TIMESTAMP,
};
use crate::routes::{STATUS_BAD_REQUEST, STATUS_INTERNAL_SERVER_ERROR, STATUS_NOT_FOUND};
use crate::utils::account_email::{email_is_valid, email_shape, AccountEmail};
use crate::utils::hmac_secret::HmacSecret;
use vstd::prelude::*;

verus! {

/// A login request.
pub struct Request {
    pub email: String,
    pub password: String,
}

/// A successful login's answer: the issued token.
pub struct Response {
    pub jwt: String,
}

/// The account lookup result as plain values.
pub open spec fn lookup_view(stored: Result<Option<StoredCredentials>, AuthError>) -> Result<
    Option<(u128, Seq<char>)>,
    AuthError,
> {
    match stored {
        Ok(s) => Ok(stored_view(s)),
        Err(e) => Err(e),
    }
}

/// What logging in with `password` gives, given the account lookup: the authenticated
/// account, or the error that refuses it.
pub open spec fn login_outcome(lookup: Result<Option<(u128, Seq<char>)>, AuthError>, password: Seq<char>) -> Result<u128, AuthError> {
    match lookup {
        Ok(s) => credentials_outcome(s, password),
        Err(e) => Err(e),
    }
}

/// First step of a login: the credentials to look up, or `400 Bad Request` when the
/// e-mail address is not valid.
pub fn post_handler(request: Request) -> (r: Result<Credentials, u16>)
    ensures
        match r {
            Ok(c) => email_is_valid(request.email@) && email_shape(request.email@) && c.email@
                == request.email@ && c.password@ == request.password@,
            Err(code) => !email_is_valid(request.email@) && code == STATUS_BAD_REQUEST,
        },
{
    let email = match AccountEmail::parse(request.email) {
        Ok(email) => email,
        Err(_) => return Err(STATUS_BAD_REQUEST),
    };
    Ok(Credentials { email, password: request.password })
}

/// Second step of a login, once the account was looked up: the token for the account,
/// `404 Not Found` when the credentials are refused or the lookup failed, or `500` when no
/// token could be issued.
pub fn post_handler_finish(
    credentials: Credentials,
    stored: Result<Option<StoredCredentials>, AuthError>,
    hmac_secret: &HmacSecret,
) -> (r: Result<Response, u16>)
    ensures
        match r {
            Ok(response) => login_outcome(lookup_view(stored), credentials.password@) matches Ok(u)
                && token_issued(response.jwt@, u, hmac_secret.spec_key()) && jwt_three_parts(
                response.jwt@,
            ) && response.jwt@.len() > 0,
            Err(code) => (code == STATUS_NOT_FOUND && login_outcome(
                lookup_view(stored),
                credentials.password@,
            ) is Err) || (code == STATUS_INTERNAL_SERVER_ERROR && login_outcome(
                lookup_view(stored),
                credentials.password@,
            ) is Ok),
        },
{
    let (now_secs, _now_nanos) = utc_now();
    post_handler_finish_at(credentials, stored, hmac_secret, now_secs)
}

/// Second step of a login at the instant `now_secs`: a token for the authenticated
/// account that expires exactly `EXPIRATION_SECONDS` later; `404 Not Found` exactly when
/// the credentials are refused or the lookup failed; `500` exactly when they are accepted
/// but that expiration cannot be represented.
pub fn post_handler_finish_at(
    credentials: Credentials,
    stored: Result<Option<StoredCredentials>, AuthError>,
    hmac_secret: &HmacSecret,
    now_secs: i64,
) -> (r: Result<Response, u16>)
    ensures
        match r {
            Ok(response) => login_outcome(lookup_view(stored), credentials.password@) matches Ok(u)
                && issued_for(
                response.jwt@,
                u,
                (now_secs + EXPIRATION_SECONDS) as i64,
                hmac_secret.spec_key(),
            ) && MIN_UTC_TIMESTAMP <= now_secs + EXPIRATION_SECONDS <= MAX_UTC_TIMESTAMP
                && jwt_three_parts(response.jwt@) && response.jwt@.len() > 0,
            Err(code) => (code == STATUS_NOT_FOUND && login_outcome(
                lookup_view(stored),
                credentials.password@,
            ) is Err) || (code == STATUS_INTERNAL_SERVER_ERROR && login_outcome(
                lookup_view(stored),
                credentials.password@,
            ) is Ok && !(MIN_UTC_TIMESTAMP <= now_secs + EXPIRATION_SECONDS <= MAX_UTC_TIMESTAMP)),
        },
{
    let found = match stored {
        Ok(s) => s,
        Err(_) => return Err(STATUS_NOT_FOUND),
    };
    let user_id = match validate_credentials(credentials, found) {
        Ok(user_id) => user_id,
        Err(_) => return Err(STATUS_NOT_FOUND),
    };
    let jwt = match generate_jwt_at(&user_id, hmac_secret, now_secs) {
        Ok(jwt) => jwt,
        Err(_) => return Err(STATUS_INTERNAL_SERVER_ERROR),
    };
    Ok(Response { jwt })
}

/// Once an account's stored hash verifies a new password, logging in with that password is
/// not refused: the login outcome names the account, so `post_handler_finish` answers with
/// a token for it or, only if no token can be issued at that time, 500, and never 404.
pub proof fn lemma_new_password_login_is_not_refused(user: u128, hash: Seq<char>, password: Seq<char>)
    requires
        hashes_password(hash, password),
    ensures
        login_outcome(Ok(Some((user, hash))), password) == Ok::<u128, AuthError>(user),
{
    lemma_changed_password_authenticates(user, hash, password);
}

} // verus!
