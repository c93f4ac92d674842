use fatum_api_rs::authentication::change_password::{change_password, compute_password_hash};
use fatum_api_rs::authentication::credentials::{
    validate_credentials, verify_password_hash, AuthError, Credentials, InvalidCredentialsReason,
    StoredCredentials, UnexpectedReason,
};
use fatum_api_rs::utils::account_email::AccountEmail;
use fatum_api_rs::utils::user_id::UserId;

fn credentials(password: &str) -> Credentials {
    Credentials {
        email: AccountEmail::parse("someone@example.com".to_string()).unwrap(),
        password: password.to_string(),
    }
}

fn account(password: &str) -> StoredCredentials {
    change_password(UserId::from_u128(42), password).unwrap()
}

#[test]
fn computed_hash_verifies_its_password_only() {
    let hash = compute_password_hash("correct horse battery staple").unwrap();
    assert!(hash.starts_with("$argon2id$v=19$m=15000,t=2,p=1$"));
    assert_eq!(verify_password_hash(&hash, "correct horse battery staple"), Ok(()));
    assert_eq!(
        verify_password_hash(&hash, "wrong password"),
        Err(AuthError::InvalidCredentials(InvalidCredentialsReason::WrongPassword))
    );
}

#[test]
fn two_hashes_of_one_password_differ_by_salt() {
    let a = compute_password_hash("same password").unwrap();
    let b = compute_password_hash("same password").unwrap();
    assert_ne!(a, b);
}

#[test]
fn malformed_stored_hash_is_an_unexpected_error() {
    assert_eq!(
        verify_password_hash("not a phc string", "anything"),
        Err(AuthError::UnexpectedError(UnexpectedReason::MalformedStoredHash))
    );
}

#[test]
fn matching_password_names_the_account() {
    let result = validate_credentials(credentials("s3cret-password"), Some(account("s3cret-password")));
    assert_eq!(result, Ok(UserId::from_u128(42)));
}

#[test]
fn wrong_password_is_refused() {
    let result = validate_credentials(credentials("wrong password"), Some(account("s3cret-password")));
    assert_eq!(result, Err(AuthError::InvalidCredentials(InvalidCredentialsReason::WrongPassword)));
}

#[test]
fn unknown_email_is_refused() {
    let result = validate_credentials(credentials("s3cret-password"), None);
    assert_eq!(result, Err(AuthError::InvalidCredentials(InvalidCredentialsReason::WrongPassword)));
}

#[test]
fn account_with_malformed_hash_is_an_unexpected_error() {
    let stored = StoredCredentials { user_id: UserId::from_u128(7), password_hash: "garbage".to_string() };
    let result = validate_credentials(credentials("whatever"), Some(stored));
    assert_eq!(result, Err(AuthError::UnexpectedError(UnexpectedReason::MalformedStoredHash)));
}

#[test]
fn changed_password_authenticates_and_old_one_does_not() {
    let stored = change_password(UserId::from_u128(9), "validNewPassword1@").unwrap();
    assert_eq!(stored.user_id, UserId::from_u128(9));
    let stored_again = StoredCredentials { user_id: stored.user_id, password_hash: stored.password_hash.clone() };
    assert_eq!(
        validate_credentials(credentials("validNewPassword1@"), Some(stored)),
        Ok(UserId::from_u128(9))
    );
    assert!(validate_credentials(credentials("old password"), Some(stored_again)).is_err());
}

#[test]
fn auth_error_messages() {
    assert_eq!(AuthError::InvalidCredentials(InvalidCredentialsReason::UnknownEmail).message(), "Invalid credentials");
    assert_eq!(
        AuthError::UnexpectedError(UnexpectedReason::MalformedStoredHash).message(),
        "Failed to parse hash in PHC string format."
    );
    assert_eq!(AuthError::UnexpectedError(UnexpectedReason::HashingFailed).message(), "Failed to hash password");
    assert_eq!(
        AuthError::UnexpectedError(UnexpectedReason::StoreFailed).message(),
        "Failed to fetch credentials from stored account"
    );
    assert_eq!(
        AuthError::UnexpectedError(UnexpectedReason::PasswordUpdateFailed).message(),
        "Failed to change password in database"
    );
}

#[test]
fn stored_hash_records_argon2id_settings() {
    let stored = change_password(UserId::from_u128(3), "another password").unwrap();
    assert!(stored.password_hash.starts_with("$argon2id$v=19$m=15000,t=2,p=1$"));
    let parts: Vec<&str> = stored.password_hash.split('$').collect();
    assert_eq!(parts.len(), 6);
}

#[test]
fn empty_password_is_hashed_too() {
    let hash = compute_password_hash("").unwrap();
    assert_eq!(verify_password_hash(&hash, ""), Ok(()));
}
