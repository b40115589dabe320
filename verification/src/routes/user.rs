//! The routes by which a user changes their own account.

pub mod update;

pub use update::change_password;
