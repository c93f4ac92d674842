pub mod token;
pub mod credentials;
pub mod change_password;
pub mod middleware;
