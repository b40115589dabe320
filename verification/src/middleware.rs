//! The guards that stand before the route handlers.

pub mod auth;
pub mod reject_non_admin_users;

pub use auth::{api_auth, api_auth_pub, validate_public_token, validate_token};
pub use reject_non_admin_users::{admin_candidate, get_user_is_admin, reject_non_admin_users};
