//! Accounts and sessions.

pub mod authenticate_with_github;
pub mod authenticate_with_password;
pub mod create_account;
pub mod get_profile;
pub mod request_password_recover;
pub mod reset_password;
