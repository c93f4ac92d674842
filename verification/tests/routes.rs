use fatum_api_rs::authentication::change_password::change_password;
use fatum_api_rs::authentication::credentials::{verify_password_hash, AuthError, StoredCredentials, UnexpectedReason};
use fatum_api_rs::authentication::middleware::{admit_request, get_token, reject_unauthorized_user};
use fatum_api_rs::authentication::token::TokenError;
use fatum_api_rs::authentication::token::{generate_jwt, get_user_id_if_token_is_valid};
use fatum_api_rs::routes::auth::password::{
    is_password_secure_enough, put_handler, put_handler_stored, PasswordChangeDecision,
    Request as PasswordRequest,
};
use fatum_api_rs::routes::auth::tokens::{post_handler, post_handler_finish, Request as LoginRequest};
use fatum_api_rs::routes::health_check::{check_db, health_check_handler, run_health_checks};
use fatum_api_rs::utils::hmac_secret::HmacSecret;
use fatum_api_rs::utils::user_id::UserId;

const TEST_EMAIL: &str = "test.user@example.com";
const TEST_PASSWORD: &str = "0b7d2a63-1f7e-4c5e-9a43-7f3f0e1a2b3c";

fn test_user() -> StoredCredentials {
    change_password(UserId::from_u128(0x1234), TEST_PASSWORD).unwrap()
}

fn login(email: &str, password: &str, stored: Option<StoredCredentials>, secret: &HmacSecret) -> Result<String, u16> {
    let credentials = post_handler(LoginRequest { email: email.to_string(), password: password.to_string() })?;
    let stored = if credentials.email.as_ref() == TEST_EMAIL { stored } else { None };
    post_handler_finish(credentials, Ok(stored), secret).map(|r| r.jwt)
}

fn change(old_password: &str, new_password: &str, stored: &StoredCredentials) -> (u16, Option<StoredCredentials>) {
    let request = PasswordRequest { old_password: old_password.to_string(), new_password: new_password.to_string() };
    let check = verify_password_hash(&stored.password_hash, &request.old_password);
    match put_handler(&request, check) {
        PasswordChangeDecision::Respond(code) => (code, None),
        PasswordChangeDecision::StoreNewPassword => match change_password(stored.user_id, &request.new_password) {
            Ok(s) => (put_handler_stored(Ok(())), Some(s)),
            Err(e) => (put_handler_stored(Err(e)), None),
        },
    }
}

#[test]
fn password_strength_counts_bytes() {
    assert!(!is_password_secure_enough("easy"));
    assert!(!is_password_secure_enough("12345678"));
    assert!(is_password_secure_enough("123456789"));
    assert!(is_password_secure_enough("validNewPassword1@"));
    assert!(is_password_secure_enough("ééééé"));
    assert!(!is_password_secure_enough("éééé"));
}

#[test]
fn change_password_without_token_will_return_401() {
    let secret = HmacSecret::new("secret");
    assert_eq!(reject_unauthorized_user(None, &secret), Err(401));
}

#[test]
fn change_password_with_incorrect_old_password_should_return_403() {
    let (code, _) = change("invalid_password", "validNewPassword1@", &test_user());
    assert_eq!(code, 403);
}

#[test]
fn change_password_with_weak_new_password_should_return_422() {
    let (code, _) = change(TEST_PASSWORD, "easy", &test_user());
    assert_eq!(code, 422);
}

#[test]
fn change_password_with_strong_new_password_should_return_204() {
    let (code, stored) = change(TEST_PASSWORD, "validNewPassword1@", &test_user());
    assert_eq!(code, 204);
    assert!(stored.is_some());
}

#[test]
fn login_request_with_new_password_should_return_success() {
    let secret = HmacSecret::new("secret");
    let (_, stored) = change(TEST_PASSWORD, "validNewPassword1@", &test_user());
    let result = login(TEST_EMAIL, "validNewPassword1@", stored, &secret);
    assert!(result.is_ok());
}

#[test]
fn failed_store_gives_500() {
    assert_eq!(put_handler_stored(Err(AuthError::UnexpectedError(UnexpectedReason::StoreFailed))), 500);
}

#[test]
fn using_correct_username_and_password_returns_a_200() {
    let secret = HmacSecret::new("secret");
    let jwt = login(TEST_EMAIL, TEST_PASSWORD, Some(test_user()), &secret).unwrap();
    assert_eq!(jwt.is_empty(), false);
    assert_eq!(get_user_id_if_token_is_valid(&jwt, &secret), Ok(UserId::from_u128(0x1234)));
}

#[test]
fn using_correct_username_and_incorrect_password_returns_a_404() {
    let secret = HmacSecret::new("secret");
    assert_eq!(login(TEST_EMAIL, "wrong password", Some(test_user()), &secret), Err(404));
}

#[test]
fn using_incorrect_username_and_correct_password_returns_a_404() {
    let secret = HmacSecret::new("secret");
    assert_eq!(login("invalid@email.com", TEST_PASSWORD, Some(test_user()), &secret), Err(404));
}

#[test]
fn login_with_invalid_email_returns_400() {
    let secret = HmacSecret::new("secret");
    assert_eq!(login("not-an-email", TEST_PASSWORD, Some(test_user()), &secret), Err(400));
}

#[test]
fn login_when_lookup_fails_returns_404() {
    let secret = HmacSecret::new("secret");
    let credentials = post_handler(LoginRequest { email: TEST_EMAIL.to_string(), password: TEST_PASSWORD.to_string() }).unwrap();
    let result = post_handler_finish(credentials, Err(AuthError::UnexpectedError(UnexpectedReason::StoreFailed)), &secret);
    assert!(matches!(result, Err(404)));
}

#[test]
fn bearer_token_is_taken_from_the_header() {
    assert_eq!(get_token(None), None);
    assert_eq!(get_token(Some("Bearer abc.def.ghi")), Some("abc.def.ghi"));
    assert_eq!(get_token(Some("Bearer ")), Some(""));
    assert_eq!(get_token(Some("Basic abc")), None);
    assert_eq!(get_token(Some("bearer abc")), None);
}

#[test]
fn valid_token_admits_its_user() {
    let secret = HmacSecret::new("secret");
    let user = UserId::from_u128(77);
    let jwt = generate_jwt(&user, &secret).unwrap();
    let header = format!("Bearer {}", jwt);
    assert_eq!(reject_unauthorized_user(Some(&header), &secret), Ok(user));
    assert_eq!(reject_unauthorized_user(Some(&jwt), &secret), Err(401));
    assert_eq!(reject_unauthorized_user(Some("Bearer nonsense"), &secret), Err(401));
}

#[test]
fn health_check_health_check_returns_a_200() {
    let (code, body) = health_check_handler(run_health_checks(true));
    assert_eq!(code, 200);
    assert_eq!(body.status(), "OK");
}

#[test]
fn failing_database_check_returns_500_with_ok_body() {
    assert_eq!(check_db(false), Err("DATABASE_ERROR".to_string()));
    assert_eq!(run_health_checks(false), Err("DATABASE_ERROR".to_string()));
    let (code, body) = health_check_handler(run_health_checks(false));
    assert_eq!(code, 500);
    assert_eq!(body.status(), "OK");
}

#[test]
fn token_check_decides_admission() {
    let user = UserId::from_u128(5);
    assert_eq!(admit_request(Some(Ok(user))), Ok(user));
    assert_eq!(admit_request(Some(Err(TokenError::Expired))), Err(401));
    assert_eq!(admit_request(Some(Err(TokenError::InvalidToken))), Err(401));
    assert_eq!(admit_request(None), Err(401));
}

#[test]
fn issued_login_token_has_three_non_empty_parts() {
    let secret = HmacSecret::new("secret");
    let jwt = login(TEST_EMAIL, TEST_PASSWORD, Some(test_user()), &secret).unwrap();
    let parts: Vec<&str> = jwt.split('.').collect();
    assert_eq!(parts.len(), 3);
    assert!(parts.iter().all(|p| !p.is_empty()));
}
