use crate::utils::hmac_secret::HmacSecret;
use crate::utils::user_id::{uuid_hyphenated, uuid_parse, UserId};
use chrono::TimeZone;
use vstd::prelude::*;

verus! {

/// How long an issued token stays valid, in hours.
pub const EXPIRATION_HOURS: u64 = 24;

/// How long an issued token stays valid, in seconds.
pub const EXPIRATION_SECONDS: i64 = 86400;

#[verifier::external_type_specification]
#[verifier::external_body]
pub struct ExJwtError(jsonwebtoken::errors::Error);

/// The HS256 token that `jsonwebtoken::encode` makes of the claims `{"sub": sub, "exp": exp}`
/// under the default header and the given key.
pub uninterp spec fn jwt_hs256_encode(sub: Seq<char>, exp: i64, key: Seq<u8>) -> Seq<char>;

/// Whether the token's header names HS256 and its signature is the HMAC-SHA256 of its
/// first two parts under the key, as `jsonwebtoken` checks it.
pub uninterp spec fn jwt_hs256_signed(token: Seq<char>, key: Seq<u8>) -> bool;

/// The `sub` claim (when it is a string) and the `exp` claim (when it is an integer
/// that fits in `i64`) of the token's payload.
pub uninterp spec fn jwt_claims(token: Seq<char>) -> (Option<Seq<char>>, Option<i64>);

/// The form of a compact token: three non-empty parts joined by `.`, none of which holds
/// a `.`.
pub open spec fn jwt_three_parts(t: Seq<char>) -> bool {
    exists|i: int, j: int|
        #![trigger t[i], t[j]]
        0 < i && i + 1 < j && j + 1 < t.len() && t[i] == '.' && t[j] == '.' && forall|k: int|
            0 <= k < t.len() && k != i && k != j ==> t[k] != '.'
}

/// The earliest UNIX timestamp that `chrono` represents: January 1 of year -262143.
pub const MIN_UTC_TIMESTAMP: i64 = -8_334_601_228_800;

/// The latest UNIX timestamp that `chrono` represents: December 31 of year 262142, 23:59:59.
pub const MAX_UTC_TIMESTAMP: i64 = 8_210_266_876_799;

/// Whether `chrono` can represent the given UNIX timestamp: whether its day falls between
/// `NaiveDate::MIN` and `NaiveDate::MAX`.
pub open spec fn chrono_in_range(secs: i64) -> bool {
    MIN_UTC_TIMESTAMP <= secs <= MAX_UTC_TIMESTAMP
}

/// Calls `jsonwebtoken::encode` with the default header (HS256), the claims object
/// `{"sub": sub, "exp": exp}` in that order, and an HMAC key made from `key`.
/// Claimed: the call succeeds (the key's family matches HS256, a JSON object of a string
/// and an integer always serialises, HMAC signing does not fail); the token is the named
/// encoding of the arguments; it is three non-empty parts joined by `.` (the URL-safe
/// base64 of the header's JSON, of the claims' JSON and of the 32-byte HMAC, whose
/// alphabet has no `.`); its signature checks under `key`; and its payload gives back
/// `sub` and `exp`.
#[verifier::external_body]
fn encode_hs256(sub: &str, exp: i64, key: &[u8]) -> (r: Result<String, jsonwebtoken::errors::Error>)
    ensures
        r is Ok,
        r matches Ok(t) ==> {
            &&& t@ == jwt_hs256_encode(sub@, exp, key@)
            &&& jwt_three_parts(t@)
            &&& jwt_hs256_signed(t@, key@)
            &&& jwt_claims(t@) == (Some(sub@), Some(exp))
        },
{
    let mut claims = serde_json::Map::new();
    claims.insert("sub".to_string(), serde_json::Value::from(sub));
    claims.insert("exp".to_string(), serde_json::Value::from(exp));
    jsonwebtoken::encode(
        &jsonwebtoken::Header::default(),
        &claims,
        &jsonwebtoken::EncodingKey::from_secret(key),
    )
}

/// Calls `jsonwebtoken::decode` with an HMAC key made from `key` and the default
/// validation (HS256, `exp` required and not more than sixty seconds in the past), then
/// takes the `sub` claim if it is a string and the `exp` claim if it is an `i64`.
/// Claimed: a token that decodes has a valid HS256 signature under `key`; it is three
/// non-empty parts without `.` (`verify_signature` splits at the last two dots, the header
/// part must base64-decode, whose alphabet has no `.`, header and payload must then parse
/// as JSON, which the empty text does not, and an empty signature differs from every
/// HMAC); and the claims returned are its payload's. Not claimed: which tokens are refused for being expired,
/// since that depends on the clock read inside the call.
#[verifier::external_body]
fn decode_hs256(token: &str, key: &[u8]) -> (r: Result<(Option<String>, Option<i64>), jsonwebtoken::errors::Error>)
    ensures
        r matches Ok(c) ==> {
            &&& jwt_three_parts(token@)
            &&& jwt_hs256_signed(token@, key@)
            &&& jwt_claims(token@).0 == (match c.0 { Some(s) => Some(s@), None => None::<Seq<char>> })
            &&& jwt_claims(token@).1 == c.1
        },
{
    let data = jsonwebtoken::decode::<serde_json::Map<String, serde_json::Value>>(
        token,
        &jsonwebtoken::DecodingKey::from_secret(key),
        &jsonwebtoken::Validation::default(),
    )?;
    let sub = match data.claims.get("sub") {
        Some(serde_json::Value::String(s)) => Some(s.clone()),
        _ => None,
    };
    let exp = data.claims.get("exp").and_then(serde_json::Value::as_i64);
    Ok((sub, exp))
}

/// Calls `chrono::Utc::now` and returns its UNIX timestamp and the nanoseconds past it.
/// Claimed (from `Utc::now`, which unwraps `DateTime::from_timestamp` of the system time
/// since the epoch): the seconds are not negative and representable, and the nanoseconds
/// are below one second. Nothing else is claimed: the value is the clock's.
#[verifier::external_body]
pub(crate) fn utc_now() -> (r: (i64, u32))
    ensures
        0 <= r.0,
        r.1 < 1_000_000_000,
        chrono_in_range(r.0),
{
    let now = chrono::Utc::now();
    (now.timestamp(), now.timestamp_subsec_nanos())
}

/// Calls `chrono::Utc.timestamp_opt(secs, 0)` and tells whether it gives a single date-time.
/// Claimed: it does exactly when the timestamp lies in chrono's range. `timestamp_opt`
/// calls `DateTime::from_timestamp`, which takes day `secs.div_euclid(86_400) + 719_163`
/// counted from the common era; `NaiveDate::from_num_days_from_ce_opt` accepts exactly the
/// days of years `MIN_YEAR` (-262143) to `MAX_YEAR` (262142), which are the bounds above.
#[verifier::external_body]
fn utc_timestamp_in_range(secs: i64) -> (r: bool)
    ensures
        r == chrono_in_range(secs),
{
    chrono::Utc.timestamp_opt(secs, 0).single().is_some()
}

/// Why a token could not be issued or was not accepted.
#[derive(Debug, Clone, Copy, PartialEq, Eq, Structural)]
pub enum TokenError {
    /// The token is malformed, not signed with the key, lacks a claim, or names no UUID.
    InvalidToken,
    /// The expiration claim is outside the range of representable timestamps.
    InvalidExpiration,
    /// The expiration time has passed.
    Expired,
    /// The expiration time of a new token would be outside the representable range.
    ExpirationOutOfRange,
    /// The token could not be encoded.
    Encoding,
}

/// Whether a token that expires at `exp` (whole seconds) has expired at the instant
/// `now_secs` seconds and `now_nanos` nanoseconds after the epoch.
pub open spec fn is_expired(exp: i64, now_secs: i64, now_nanos: u32) -> bool {
    exp < now_secs || (exp == now_secs && now_nanos > 0)
}

/// What the claims of a signed token give at a given instant: the user they name, or why
/// they are refused.
pub open spec fn claims_outcome(
    sub: Option<Seq<char>>,
    exp: Option<i64>,
    now_secs: i64,
    now_nanos: u32,
) -> Result<u128, TokenError> {
    match (sub, exp) {
        (Some(s), Some(e)) => match uuid_parse(s) {
            Some(u) => if !chrono_in_range(e) {
                Err(TokenError::InvalidExpiration)
            } else if is_expired(e, now_secs, now_nanos) {
                Err(TokenError::Expired)
            } else {
                Ok(u)
            },
            None => Err(TokenError::InvalidToken),
        },
        _ => Err(TokenError::InvalidToken),
    }
}

/// The expiration time of a token issued at `now_secs`, if it is representable.
pub open spec fn expiration_outcome(now_secs: i64) -> Option<i64> {
    if now_secs + EXPIRATION_SECONDS <= i64::MAX && chrono_in_range(
        (now_secs + EXPIRATION_SECONDS) as i64,
    ) {
        Some((now_secs + EXPIRATION_SECONDS) as i64)
    } else {
        None
    }
}

/// `token` is a token issued for `user` under `key` that expires at `exp`.
pub open spec fn issued_for(token: Seq<char>, user: u128, exp: i64, key: Seq<u8>) -> bool {
    &&& token == jwt_hs256_encode(uuid_hyphenated(user), exp, key)
    &&& jwt_three_parts(token)
    &&& jwt_hs256_signed(token, key)
    &&& jwt_claims(token) == (Some(uuid_hyphenated(user)), Some(exp))
}

/// `token` is a token issued for `user` under `key` with some representable expiration
/// time at least `EXPIRATION_HOURS` after the epoch.
pub open spec fn token_issued(token: Seq<char>, user: u128, key: Seq<u8>) -> bool {
    exists|exp: i64|
        #![trigger jwt_hs256_encode(uuid_hyphenated(user), exp, key)]
        chrono_in_range(exp) && exp >= EXPIRATION_SECONDS && issued_for(token, user, exp, key)
}

/// `token` was accepted under `key` as naming `user`: it has the three-part form, is signed with the key, its
/// subject parses to `user`, its expiration is representable, and a subject written in
/// hyphenated form names only the UUID it spells.
pub open spec fn accepted_as(token: Seq<char>, key: Seq<u8>, user: u128) -> bool {
    &&& jwt_three_parts(token)
    &&& jwt_hs256_signed(token, key)
    &&& jwt_claims(token).0 matches Some(s)
    &&& jwt_claims(token).1 matches Some(e)
    &&& uuid_parse(s) == Some(user)
    &&& chrono_in_range(e)
    &&& forall|u: u128| s == #[trigger] uuid_hyphenated(u) ==> u == user
}

/// The expiration time of a token issued at `now_secs`: that instant plus
/// `EXPIRATION_HOURS`, or nothing where the sum cannot be represented.
pub fn token_expiration(now_secs: i64) -> (r: Option<i64>)
    ensures
        r == expiration_outcome(now_secs),
{
    match now_secs.checked_add(EXPIRATION_SECONDS) {
        None => None,
        Some(exp) => if utc_timestamp_in_range(exp) {
            Some(exp)
        } else {
            None
        },
    }
}

/// Signs a token for `user_id` that expires at `exp`.
pub fn issue_token(user_id: &UserId, exp: i64, secret: &HmacSecret) -> (r: Result<String, TokenError>)
    ensures
        r matches Ok(t) && issued_for(t@, user_id@, exp, secret.spec_key()) && jwt_three_parts(t@),
{
    let sub = user_id.to_hyphenated();
    match encode_hs256(sub.as_str(), exp, secret.as_ref()) {
        Ok(t) => Ok(t),
        Err(_) => Err(TokenError::Encoding),
    }
}

/// Issues a token for `user_id`, signed with `secret`, that expires `EXPIRATION_HOURS`
/// after the current time.
pub fn generate_jwt(user_id: &UserId, secret: &HmacSecret) -> (r: Result<String, TokenError>)
    ensures
        match r {
            Ok(t) => token_issued(t@, user_id@, secret.spec_key()) && jwt_three_parts(t@) && t@.len()
                > 0,
            Err(e) => e == TokenError::ExpirationOutOfRange,
        },
{
    let (now_secs, _now_nanos) = utc_now();
    generate_jwt_at(user_id, secret, now_secs)
}

/// Issues a token for `user_id`, signed with `secret`, at the instant `now_secs`: it
/// expires exactly `EXPIRATION_SECONDS` later, and is refused only when that expiration
/// cannot be represented.
pub fn generate_jwt_at(user_id: &UserId, secret: &HmacSecret, now_secs: i64) -> (r: Result<String, TokenError>)
    ensures
        r is Ok <==> MIN_UTC_TIMESTAMP <= now_secs + EXPIRATION_SECONDS <= MAX_UTC_TIMESTAMP,
        match r {
            Ok(t) => issued_for(
                t@,
                user_id@,
                (now_secs + EXPIRATION_SECONDS) as i64,
                secret.spec_key(),
            ) && jwt_three_parts(t@) && t@.len() > 0,
            Err(e) => e == TokenError::ExpirationOutOfRange,
        },
{
    match token_expiration(now_secs) {
        None => Err(TokenError::ExpirationOutOfRange),
        Some(exp) => {
            let r = issue_token(user_id, exp, secret);
            proof {
                if r is Ok {
                    lemma_three_parts_not_empty(r->Ok_0@);
                }
            }
            r
        },
    }
}

/// A compact token is never empty.
pub proof fn lemma_three_parts_not_empty(t: Seq<char>)
    requires
        jwt_three_parts(t),
    ensures
        t.len() > 0,
{
}

/// Decides what the claims of a token whose signature checked give at the instant
/// `now_secs` seconds and `now_nanos` nanoseconds after the epoch.
pub fn check_claims(sub: Option<String>, exp: Option<i64>, now_secs: i64, now_nanos: u32) -> (r: Result<UserId, TokenError>)
    ensures
        match r {
            Ok(id) => claims_outcome(
                match sub { Some(s) => Some(s@), None => None },
                exp,
                now_secs,
                now_nanos,
            ) == Ok::<u128, TokenError>(id@),
            Err(e) => claims_outcome(
                match sub { Some(s) => Some(s@), None => None },
                exp,
                now_secs,
                now_nanos,
            ) == Err::<u128, TokenError>(e),
        },
        r matches Ok(id) ==> sub matches Some(s) && forall|u: u128| s@ == #[trigger] uuid_hyphenated(u) ==> u == id@,
{
    match (sub, exp) {
        (Some(s), Some(e)) => match UserId::parse(s.as_str()) {
            None => Err(TokenError::InvalidToken),
            Some(id) => {
                if !utc_timestamp_in_range(e) {
                    Err(TokenError::InvalidExpiration)
                } else if e < now_secs || (e == now_secs && now_nanos > 0) {
                    Err(TokenError::Expired)
                } else {
                    Ok(id)
                }
            },
        },
        _ => Err(TokenError::InvalidToken),
    }
}

/// The user named by `token`, if it is signed with `secret`, names a UUID, and has not
/// expired at the current time.
pub fn get_user_id_if_token_is_valid(token: &str, secret: &HmacSecret) -> (r: Result<UserId, TokenError>)
    ensures
        r matches Ok(id) ==> accepted_as(token@, secret.spec_key(), id@),
        r matches Ok(id) ==> exists|now_secs: i64, now_nanos: u32|
            claims_outcome(jwt_claims(token@).0, jwt_claims(token@).1, now_secs, now_nanos)
                == Ok::<u128, TokenError>(id@),
        r matches Err(e) ==> (e is InvalidToken || e is InvalidExpiration || e is Expired),
        r matches Err(e) ==> e is InvalidToken || exists|now_secs: i64, now_nanos: u32|
            claims_outcome(jwt_claims(token@).0, jwt_claims(token@).1, now_secs, now_nanos)
                == Err::<u128, TokenError>(e),
{
    let (now_secs, now_nanos) = utc_now();
    get_user_id_if_token_is_valid_at(token, secret, now_secs, now_nanos)
}

/// The user named by `token` at the instant `now_secs` seconds and `now_nanos`
/// nanoseconds after the epoch: once the token's signature checks, the answer is what its
/// claims give at that instant; otherwise the token is invalid.
pub fn get_user_id_if_token_is_valid_at(token: &str, secret: &HmacSecret, now_secs: i64, now_nanos: u32) -> (r: Result<UserId, TokenError>)
    ensures
        r matches Ok(id) ==> accepted_as(token@, secret.spec_key(), id@) && claims_outcome(
            jwt_claims(token@).0,
            jwt_claims(token@).1,
            now_secs,
            now_nanos,
        ) == Ok::<u128, TokenError>(id@),
        r matches Err(e) ==> e is InvalidToken || claims_outcome(
            jwt_claims(token@).0,
            jwt_claims(token@).1,
            now_secs,
            now_nanos,
        ) == Err::<u128, TokenError>(e),
        r matches Err(e) ==> (e is InvalidToken || e is InvalidExpiration || e is Expired),
{
    match decode_hs256(token, secret.as_ref()) {
        Err(_) => Err(TokenError::InvalidToken),
        Ok((sub, exp)) => check_claims(sub, exp, now_secs, now_nanos),
    }
}

/// A token issued at `issued_at` for `user` is accepted as that user, by its claims, at
/// every instant up to and including `EXPIRATION_HOURS` hours later, and refused as
/// expired at every instant after that.
pub proof fn lemma_issued_token_lifetime(
    token: Seq<char>,
    user: u128,
    issued_at: i64,
    key: Seq<u8>,
    now_secs: i64,
    now_nanos: u32,
)
    requires
        MIN_UTC_TIMESTAMP <= issued_at + EXPIRATION_SECONDS <= MAX_UTC_TIMESTAMP,
        issued_for(token, user, (issued_at + EXPIRATION_SECONDS) as i64, key),
        uuid_parse(uuid_hyphenated(user)) == Some(user),
    ensures
        EXPIRATION_SECONDS == EXPIRATION_HOURS * 3600,
        claims_outcome(jwt_claims(token).0, jwt_claims(token).1, now_secs, now_nanos) == (if now_secs
            < issued_at + EXPIRATION_HOURS * 3600 || (now_secs == issued_at + EXPIRATION_HOURS * 3600
            && now_nanos == 0) {
            Ok::<u128, TokenError>(user)
        } else {
            Err::<u128, TokenError>(TokenError::Expired)
        }),
{
}

/// The expiration time of a token issued at `now_secs` is exactly `EXPIRATION_HOURS`
/// hours later, whenever that instant is representable; otherwise there is none.
pub proof fn lemma_expiration_is_a_day_later(now_secs: i64)
    ensures
        match expiration_outcome(now_secs) {
            Some(exp) => exp == now_secs + EXPIRATION_HOURS * 3600,
            None => !(MIN_UTC_TIMESTAMP <= now_secs + EXPIRATION_HOURS * 3600 <= MAX_UTC_TIMESTAMP),
        },
{
}

/// A token issued for one user and accepted under the same key names that user.
pub proof fn lemma_issued_token_names_its_user(token: Seq<char>, user: u128, exp: i64, key: Seq<u8>, accepted: u128)
    requires
        issued_for(token, user, exp, key),
        accepted_as(token, key, accepted),
    ensures
        accepted == user,
{
}

/// A text that is not three non-empty parts joined by `.` is never accepted as a token.
pub proof fn lemma_malformed_token_is_refused(token: Seq<char>, key: Seq<u8>, user: u128)
    requires
        !jwt_three_parts(token),
    ensures
        !accepted_as(token, key, user),
{
}

/// Until its expiration time, the claims of a token issued for a user give that user
/// (the subject is the user's hyphenated UUID, which `UserId::parse` reads back as the
/// same UUID, and a representable expiration that has not passed is accepted).
pub proof fn lemma_issued_token_valid_until_expiry(
    token: Seq<char>,
    user: u128,
    exp: i64,
    key: Seq<u8>,
    now_secs: i64,
    now_nanos: u32,
)
    requires
        issued_for(token, user, exp, key),
        chrono_in_range(exp),
        uuid_parse(uuid_hyphenated(user)) == Some(user),
        !is_expired(exp, now_secs, now_nanos),
    ensures
        claims_outcome(jwt_claims(token).0, jwt_claims(token).1, now_secs, now_nanos) == Ok::<
            u128,
            TokenError,
        >(user),
{
}

} // verus!
