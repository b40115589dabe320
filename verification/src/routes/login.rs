//! Logging in and registering.

pub mod post;
pub mod register;

pub use post::{
    error_chain_fmt, login, login_body, login_response, LoginBody, LoginError, LoginRejection,
    LoginResponse, UserData,
};
pub use register::{insert_user, new_account, register, registered, NewUser};
