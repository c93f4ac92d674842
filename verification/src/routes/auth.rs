pub mod password;
pub mod tokens;
