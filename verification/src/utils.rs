pub mod account_email;
pub mod user_id;
pub mod hmac_secret;
