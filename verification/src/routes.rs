//! The request rules of the routes: what each decides before and after the
//! data store is touched.

pub mod admin;
pub mod favorite;
pub mod get_fishs;
pub mod login;
pub mod min_and_max;
pub mod presign_s3;
pub mod user;

pub use admin::{update_fish_type_image, FishTypeImageData};
pub use favorite::favorite_recipe;
pub use get_fishs::fishs;
pub use login::{error_chain_fmt, login, register, LoginError, LoginRejection, LoginResponse};
pub use min_and_max::{min_and_max, MinMaxQuery};
pub use presign_s3::{presign_s3, File, Presign};
pub use user::change_password;
