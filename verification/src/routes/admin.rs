//! The administration routes.

pub mod fish_type;

pub use fish_type::{update_fish_type_image, FishTypeImageData, ImageColumn};
