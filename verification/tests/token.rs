use fatum_api_rs::authentication::token::{
    check_claims, generate_jwt, get_user_id_if_token_is_valid, issue_token, token_expiration,
    TokenError, EXPIRATION_SECONDS, MAX_UTC_TIMESTAMP, MIN_UTC_TIMESTAMP,
};
use fatum_api_rs::utils::hmac_secret::HmacSecret;
use fatum_api_rs::utils::user_id::UserId;

fn user() -> UserId {
    UserId::from_u128(0x550e8400_e29b_41d4_a716_446655440000)
}

#[test]
fn generated_token_names_its_user() {
    let secret = HmacSecret::new("very-secret-key");
    let token = generate_jwt(&user(), &secret).unwrap();
    assert!(!token.is_empty());
    assert_eq!(token.split('.').count(), 3);
    assert_eq!(get_user_id_if_token_is_valid(&token, &secret), Ok(user()));
}

#[test]
fn token_signed_with_another_key_is_refused() {
    let token = generate_jwt(&user(), &HmacSecret::new("key-one")).unwrap();
    assert_eq!(
        get_user_id_if_token_is_valid(&token, &HmacSecret::new("key-two")),
        Err(TokenError::InvalidToken)
    );
}

#[test]
fn malformed_token_is_refused() {
    let secret = HmacSecret::new("key");
    assert_eq!(get_user_id_if_token_is_valid("", &secret), Err(TokenError::InvalidToken));
    assert_eq!(get_user_id_if_token_is_valid("a.b.c", &secret), Err(TokenError::InvalidToken));
}

#[test]
fn expired_token_is_refused() {
    let secret = HmacSecret::new("key");
    let token = issue_token(&user(), 1_000, &secret).unwrap();
    assert!(get_user_id_if_token_is_valid(&token, &secret).is_err());
}

#[test]
fn token_expiration_is_a_day_later() {
    assert_eq!(EXPIRATION_SECONDS, 86_400);
    assert_eq!(token_expiration(1_700_000_000), Some(1_700_086_400));
    assert_eq!(token_expiration(0), Some(86_400));
    assert_eq!(token_expiration(i64::MAX - 10), None);
    assert_eq!(token_expiration(i64::MAX / 2), None);
}

#[test]
fn claims_are_checked_against_the_instant() {
    let sub = Some("550e8400-e29b-41d4-a716-446655440000".to_string());
    assert_eq!(check_claims(sub.clone(), Some(100), 99, 999_999_999), Ok(user()));
    assert_eq!(check_claims(sub.clone(), Some(100), 100, 0), Ok(user()));
    assert_eq!(check_claims(sub.clone(), Some(100), 100, 1), Err(TokenError::Expired));
    assert_eq!(check_claims(sub.clone(), Some(100), 101, 0), Err(TokenError::Expired));
    assert_eq!(check_claims(sub.clone(), Some(i64::MAX), 0, 0), Err(TokenError::InvalidExpiration));
    assert_eq!(check_claims(sub.clone(), None, 0, 0), Err(TokenError::InvalidToken));
    assert_eq!(check_claims(None, Some(100), 0, 0), Err(TokenError::InvalidToken));
    assert_eq!(check_claims(Some("nobody".to_string()), Some(100), 0, 0), Err(TokenError::InvalidToken));
}

#[test]
fn expiration_range_is_chronos() {
    let sub = Some("550e8400-e29b-41d4-a716-446655440000".to_string());
    assert_eq!(check_claims(sub.clone(), Some(MAX_UTC_TIMESTAMP), 0, 0), Ok(user()));
    assert_eq!(check_claims(sub.clone(), Some(MAX_UTC_TIMESTAMP + 1), 0, 0), Err(TokenError::InvalidExpiration));
    assert_eq!(check_claims(sub.clone(), Some(MIN_UTC_TIMESTAMP), 0, 0), Err(TokenError::Expired));
    assert_eq!(check_claims(sub.clone(), Some(MIN_UTC_TIMESTAMP - 1), 0, 0), Err(TokenError::InvalidExpiration));
    assert_eq!(token_expiration(MAX_UTC_TIMESTAMP - EXPIRATION_SECONDS), Some(MAX_UTC_TIMESTAMP));
    assert_eq!(token_expiration(MAX_UTC_TIMESTAMP - EXPIRATION_SECONDS + 1), None);
}

#[test]
fn text_without_three_parts_is_not_a_token() {
    let secret = HmacSecret::new("key");
    assert_eq!(get_user_id_if_token_is_valid("not-a-jwt", &secret), Err(TokenError::InvalidToken));
    assert_eq!(get_user_id_if_token_is_valid("a..c", &secret), Err(TokenError::InvalidToken));
}
