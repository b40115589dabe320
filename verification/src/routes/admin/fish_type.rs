//! The images of a fish type.

use vstd::prelude::*;

verus! {

/// A new image for a fish type: where it lies, and which of the two images
/// of the type it is.
#[derive(Clone, Debug, PartialEq, Eq)]
pub struct FishTypeImageData {
    pub image_url: String,
    pub woodland_image_flag: bool,
}

/// The column of a fish type that holds one of its images.
#[derive(Clone, Copy, Debug, PartialEq, Eq, Structural)]
pub enum ImageColumn {
    /// The photograph.
    S3FishImage,
    /// The woodland-style drawing.
    S3WoodlandImage,
}

impl ImageColumn {
    /// The name of the column in the table of fish types.
    pub fn name(&self) -> (text: &'static str)
        ensures
            text@ == (match *self {
                ImageColumn::S3FishImage => "s3_fish_image"@,
                ImageColumn::S3WoodlandImage => "s3_woodland_image"@,
            }),
    {
        match self {
            ImageColumn::S3FishImage => "s3_fish_image",
            ImageColumn::S3WoodlandImage => "s3_woodland_image",
        }
    }
}

/// Says which image of the fish type the new URL replaces: the woodland
/// image where the flag is set, the photograph where it is not.
pub fn update_fish_type_image(data: &FishTypeImageData) -> (column: ImageColumn)
    ensures
        column == (if data.woodland_image_flag {
            ImageColumn::S3WoodlandImage
        } else {
            ImageColumn::S3FishImage
        }),
{
    if data.woodland_image_flag {
        ImageColumn::S3WoodlandImage
    } else {
        ImageColumn::S3FishImage
    }
}

} // verus!
