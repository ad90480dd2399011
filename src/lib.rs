//! Core of an image library: a pixel model, a capability for pixel-addressable
//! images with rectangular views, a runtime-typed image, format sniffing, and
//! decoders for TIFF and WEBP containers.

pub mod buffer;
pub mod color;
pub mod dynimage;
pub mod image;
pub mod tiff;
pub mod traits;
pub mod webp;

pub use crate::buffer::{GrayAlphaImage, GrayImage, ImageBuffer, RgbImage, RgbaImage};
pub use crate::color::{ColorType, FromColor, Luma, LumaA, Pixel, Rgb, Rgba};
pub use crate::dynimage::{
    decoder_to_image, guess_format, image_from_samples, load_from_memory,
    load_from_memory_with_format, DynamicImage,
};
pub use crate::image::{
    copy_from, DecodingResult, GenericImage, ImageDecoder, ImageError, ImageFormat, ImageResult,
    MutPixels, Pixels, SubImage,
};
pub use crate::tiff::TIFFDecoder;
pub use crate::traits::Primitive;
pub use crate::webp::WebpDecoder;
