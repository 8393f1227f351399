//! Uploaded images and the media types the backend accepts for them.

use vstd::prelude::*;
use vstd::string::*;

use crate::text::same_text;

verus! {

/// The media type of an uploaded image.
#[derive(Clone, Copy, Debug, PartialEq, Eq, Structural)]
pub enum ImageType {
    Png,
    Jpeg,
    Jpg,
    Gif,
    Unsupported,
}

/// The image type a declared content type stands for.
pub open spec fn image_type_of(content_type: Seq<char>) -> ImageType {
    if content_type == "image/png"@ {
        ImageType::Png
    } else if content_type == "image/jpg"@ {
        ImageType::Jpg
    } else if content_type == "image/jpeg"@ {
        ImageType::Jpeg
    } else if content_type == "image/gif"@ {
        ImageType::Gif
    } else {
        ImageType::Unsupported
    }
}

/// The file extension stored images of each type get.
pub open spec fn extension_of(t: ImageType) -> Seq<char> {
    match t {
        ImageType::Png => "png"@,
        ImageType::Jpeg => "jpeg"@,
        ImageType::Jpg => "jpg"@,
        ImageType::Gif => "gif"@,
        ImageType::Unsupported => "???"@,
    }
}

impl ImageType {
    /// Reads a declared content type such as `"image/png"`; any other text is
    /// `Unsupported`.
    pub fn from_str(string: &str) -> (r: ImageType)
        ensures
            r == image_type_of(string@),
    {
        if same_text(string, "image/png") {
            ImageType::Png
        } else if same_text(string, "image/jpg") {
            ImageType::Jpg
        } else if same_text(string, "image/jpeg") {
            ImageType::Jpeg
        } else if same_text(string, "image/gif") {
            ImageType::Gif
        } else {
            ImageType::Unsupported
        }
    }

    /// The file extension of this type (`"???"` when unsupported).
    pub fn extension(&self) -> (r: String)
        ensures
            r@ == extension_of(*self),
    {
        match self {
            ImageType::Png => String::from_str("png"),
            ImageType::Jpeg => String::from_str("jpeg"),
            ImageType::Jpg => String::from_str("jpg"),
            ImageType::Gif => String::from_str("gif"),
            ImageType::Unsupported => String::from_str("???"),
        }
    }
}

/// An uploaded image: its type, its original file name and its bytes.
#[derive(Debug)]
pub struct Image {
    pub file_type: ImageType,
    pub file_name: String,
    pub data: Vec<u8>,
}

impl Image {
    /// An empty image of unsupported type, to be filled from a form.
    pub fn new() -> (r: Image)
        ensures
            r.file_type == ImageType::Unsupported,
            r.file_name@.len() == 0,
            r.data@.len() == 0,
    {
        Image { file_type: ImageType::Unsupported, file_name: String::new(), data: Vec::new() }
    }

    /// Whether the image has one of the accepted types.
    pub fn is_supported_image_type(&self) -> (r: bool)
        ensures
            r == (self.file_type != ImageType::Unsupported),
    {
        !matches!(self.file_type, ImageType::Unsupported)
    }
}

} // verus!
