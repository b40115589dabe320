//! Updates of an account.

pub mod password;
pub mod profile;

pub use password::{change_password, ChangeAction, ChangeEvent, ChangeState, FormData};
pub use profile::Sex;
