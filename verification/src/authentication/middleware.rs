use crate::authentication::token::{accepted_as, get_user_id_if_token_is_valid, TokenError};
use crate::routes::STATUS_UNAUTHORIZED;
use crate::utils::hmac_secret::HmacSecret;
use crate::utils::user_id::UserId;
use vstd::prelude::*;

verus! {

/// Calls `str::strip_prefix`: the rest of `s` after `prefix`, if `s` starts with it.
#[verifier::external_body]
fn strip_prefix<'a>(s: &'a str, prefix: &str) -> (r: Option<&'a str>)
    ensures
        r is Some <==> prefix@.is_prefix_of(s@),
        r matches Some(t) ==> s@ == prefix@ + t@,
{
    s.strip_prefix(prefix)
}

/// The scheme that introduces a token in the `Authorization` header.
pub open spec fn bearer_scheme() -> Seq<char> {
    "Bearer "@
}

/// The token carried by an `Authorization` header value: what follows `"Bearer "`.
pub open spec fn bearer_token(header: Seq<char>) -> Option<Seq<char>> {
    if bearer_scheme().is_prefix_of(header) {
        Some(header.skip(bearer_scheme().len() as int))
    } else {
        None
    }
}

/// The token of the request: the value of its `Authorization` header, when it is text,
/// after the `"Bearer "` scheme.
pub fn get_token(authorization: Option<&str>) -> (r: Option<&str>)
    ensures
        match authorization {
            None => r is None,
            Some(h) => match r {
                Some(t) => bearer_token(h@) == Some(t@),
                None => bearer_token(h@) is None,
            },
        },
{
    match authorization {
        None => None,
        Some(h) => {
            let r = strip_prefix(h, "Bearer ");
            proof {
                if let Some(t) = r {
                    assert(h@.skip(bearer_scheme().len() as int) =~= t@);
                }
            }
            r
        },
    }
}

/// Decides a request from the check of its bearer token (nothing when it carries none):
/// admitted as the token's user when the check accepted the token, `401 Unauthorized`
/// otherwise.
pub fn admit_request(token_check: Option<Result<UserId, TokenError>>) -> (r: Result<UserId, u16>)
    ensures
        r == (match token_check {
            Some(Ok(id)) => Ok::<UserId, u16>(id),
            _ => Err::<UserId, u16>(STATUS_UNAUTHORIZED),
        }),
{
    match token_check {
        Some(Ok(id)) => Ok(id),
        _ => Err(STATUS_UNAUTHORIZED),
    }
}

/// Admits a request only when it carries a valid token: the user it names, or
/// `401 Unauthorized`.
pub fn reject_unauthorized_user(authorization: Option<&str>, hmac_secret: &HmacSecret) -> (r: Result<UserId, u16>)
    ensures
        match r {
            Ok(id) => authorization matches Some(h) && bearer_token(h@) matches Some(t) && accepted_as(
                t,
                hmac_secret.spec_key(),
                id@,
            ),
            Err(code) => code == STATUS_UNAUTHORIZED,
        },
        (authorization is None || (authorization matches Some(h) && bearer_token(h@) is None)) ==> r
            is Err,
{
    let token_check = match get_token(authorization) {
        Some(token) => Some(get_user_id_if_token_is_valid(token, hmac_secret)),
        None => None,
    };
    admit_request(token_check)
}

} // verus!
