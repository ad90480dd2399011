//! Images whose pixel layout is known at run time, and loading them from
//! bytes.

use vstd::prelude::*;

use crate::buffer::{spec_run, GrayAlphaImage, GrayImage, ImageBuffer, RgbImage, RgbaImage};
use crate::color::{ColorType, Luma, LumaA, Pixel, Rgb, Rgba};
use crate::image::{DecodingResult, GenericImage, ImageDecoder, ImageError, ImageFormat, ImageResult};
use crate::tiff::{
    spec_header, spec_image_at, spec_marker, spec_open_truncated, spec_tiff_color, TIFFDecoder,
};
use crate::webp::{spec_webp_size, WebpDecoder};

verus! {

/// An image of one of the 8-bit pixel layouts.
#[derive(Clone, Debug)]
pub enum DynamicImage {
    /// Each pixel in this image is 8-bit Luma
    ImageLuma8(GrayImage),
    /// Each pixel in this image is 8-bit Luma with alpha
    ImageLumaA8(GrayAlphaImage),
    /// Each pixel in this image is 8-bit Rgb
    ImageRgb8(RgbImage),
    /// Each pixel in this image is 8-bit Rgb with alpha
    ImageRgba8(RgbaImage),
}

impl DynamicImage {
    /// Well-formedness of the image held.
    pub open spec fn inv(&self) -> bool {
        match self {
            DynamicImage::ImageLuma8(b) => b.inv(),
            DynamicImage::ImageLumaA8(b) => b.inv(),
            DynamicImage::ImageRgb8(b) => b.inv(),
            DynamicImage::ImageRgba8(b) => b.inv(),
        }
    }

    /// The color type of the image held.
    pub open spec fn spec_color(&self) -> ColorType {
        match self {
            DynamicImage::ImageLuma8(_) => ColorType::Gray(8),
            DynamicImage::ImageLumaA8(_) => ColorType::GrayA(8),
            DynamicImage::ImageRgb8(_) => ColorType::RGB(8),
            DynamicImage::ImageRgba8(_) => ColorType::RGBA(8),
        }
    }

    /// The width and height of the image held.
    pub open spec fn spec_dimensions(&self) -> (u32, u32) {
        match self {
            DynamicImage::ImageLuma8(b) => b.spec_dimensions(),
            DynamicImage::ImageLumaA8(b) => b.spec_dimensions(),
            DynamicImage::ImageRgb8(b) => b.spec_dimensions(),
            DynamicImage::ImageRgba8(b) => b.spec_dimensions(),
        }
    }

    /// The samples of the pixel at `(x, y)`.
    pub open spec fn spec_channels_at(&self, x: u32, y: u32) -> Seq<u8> {
        match self {
            DynamicImage::ImageLuma8(b) => b.spec_pixel(x, y).spec_channels(),
            DynamicImage::ImageLumaA8(b) => b.spec_pixel(x, y).spec_channels(),
            DynamicImage::ImageRgb8(b) => b.spec_pixel(x, y).spec_channels(),
            DynamicImage::ImageRgba8(b) => b.spec_pixel(x, y).spec_channels(),
        }
    }

    /// The color type of the image held.
    pub fn color(&self) -> (r: ColorType)
        ensures
            r == self.spec_color(),
    {
        match self {
            DynamicImage::ImageLuma8(_) => ColorType::Gray(8),
            DynamicImage::ImageLumaA8(_) => ColorType::GrayA(8),
            DynamicImage::ImageRgb8(_) => ColorType::RGB(8),
            DynamicImage::ImageRgba8(_) => ColorType::RGBA(8),
        }
    }

    /// The width and height of the image held.
    pub fn dimensions(&self) -> (r: (u32, u32))
        ensures
            r == self.spec_dimensions(),
    {
        match self {
            DynamicImage::ImageLuma8(b) => b.dimensions(),
            DynamicImage::ImageLumaA8(b) => b.dimensions(),
            DynamicImage::ImageRgb8(b) => b.dimensions(),
            DynamicImage::ImageRgba8(b) => b.dimensions(),
        }
    }
}

/// The number of channels of the 8-bit layout of `c`, if it has one.
pub open spec fn spec_layout_channels(c: ColorType) -> Option<nat> {
    match c {
        ColorType::Gray(8) => Some(1),
        ColorType::GrayA(8) => Some(2),
        ColorType::RGB(8) => Some(3),
        ColorType::RGBA(8) => Some(4),
        _ => None,
    }
}

/// What `image_from_samples` makes of `buf` for a layout of `n` channels.
fn buffer_for<P: Pixel<Subpixel = u8>>(width: u32, height: u32, buf: &Vec<u8>) -> (r: ImageResult<
    ImageBuffer<P>,
>)
    ensures
        r is Err <==> buf@.len() != width as nat * height as nat * P::spec_channel_count(),
        buf@.len() < width as nat * height as nat * P::spec_channel_count() ==> (r matches Err(
            ImageError::NotEnoughData,
        )),
        buf@.len() > width as nat * height as nat * P::spec_channel_count() ==> (r matches Err(
            ImageError::DimensionError,
        )),
        r matches Ok(img) ==> {
            &&& img.inv()
            &&& img.spec_dimensions() == (width, height)
            &&& forall|x: u32, y: u32|
                x < width && y < height ==> (#[trigger] img.spec_pixel(x, y)).spec_channels()
                    == spec_run(buf@, P::spec_channel_count(), y as int * width as int + x as int)
        },
{
    let n = P::channel_count() as u128;
    proof {
        assert(width as nat * height as nat <= 0xffff_ffff * 0xffff_ffff) by (nonlinear_arith);
        assert(width as nat * height as nat * n <= 0xffff_ffff * 0xffff_ffff * 4) by (nonlinear_arith)
            requires
                n <= 4,
                width as nat * height as nat <= 0xffff_ffff * 0xffff_ffff,
        ;
    }
    let need = width as u128 * height as u128 * n;
    match ImageBuffer::from_raw(width, height, buf.as_slice()) {
        Some(img) => Ok(img),
        None => if (buf.len() as u128) < need {
            Err(ImageError::NotEnoughData)
        } else {
            Err(ImageError::DimensionError)
        },
    }
}

/// What assembling `buf` into an image of `width` by `height` pixels of the
/// color type `color` gives.
pub open spec fn spec_assembled(
    width: u32,
    height: u32,
    color: ColorType,
    buf: DecodingResult,
    r: ImageResult<DynamicImage>,
) -> bool {
    &&& (spec_layout_channels(color) is None || buf is U16) ==> (r matches Err(
            ImageError::UnsupportedColor(c),
        ) && c == color)
    &&& spec_layout_channels(color) matches Some(n) ==> (buf matches DecodingResult::U8(v) ==> {
            &&& r is Err <==> v@.len() != width as nat * height as nat * n
            &&& v@.len() < width as nat * height as nat * n ==> (r matches Err(
                ImageError::NotEnoughData,
            ))
            &&& v@.len() > width as nat * height as nat * n ==> (r matches Err(
                ImageError::DimensionError,
            ))
            &&& r matches Ok(img) ==> {
                &&& img.inv()
                &&& img.spec_color() == color
                &&& img.spec_dimensions() == (width, height)
                &&& forall|x: u32, y: u32|
                    x < width && y < height ==> #[trigger] img.spec_channels_at(x, y) == spec_run(
                        v@,
                        n,
                        y as int * width as int + x as int,
                    )
            }
        })
}

/// Assembles decoded samples into the image variant that `color` names.
///
/// Only 8-bit samples of the four 8-bit layouts can be held; any other color
/// type, or 16-bit samples, is an unsupported color. The samples must number
/// exactly `width * height` times the layout's channels: fewer is not enough
/// data, more means a geometry that the color type does not describe.
pub fn image_from_samples(width: u32, height: u32, color: ColorType, buf: DecodingResult) -> (r:
    ImageResult<DynamicImage>)
    ensures
        spec_assembled(width, height, color, buf, r),
{
    let v = match buf {
        DecodingResult::U8(v) => v,
        DecodingResult::U16(_) => return Err(ImageError::UnsupportedColor(color)),
    };
    match color {
        ColorType::Gray(8) => match buffer_for::<Luma<u8>>(width, height, &v) {
            Ok(b) => Ok(DynamicImage::ImageLuma8(b)),
            Err(e) => Err(e),
        },
        ColorType::GrayA(8) => match buffer_for::<LumaA<u8>>(width, height, &v) {
            Ok(b) => Ok(DynamicImage::ImageLumaA8(b)),
            Err(e) => Err(e),
        },
        ColorType::RGB(8) => match buffer_for::<Rgb<u8>>(width, height, &v) {
            Ok(b) => Ok(DynamicImage::ImageRgb8(b)),
            Err(e) => Err(e),
        },
        ColorType::RGBA(8) => match buffer_for::<Rgba<u8>>(width, height, &v) {
            Ok(b) => Ok(DynamicImage::ImageRgba8(b)),
            Err(e) => Err(e),
        },
        _ => Err(ImageError::UnsupportedColor(color)),
    }
}

/// What `decoder_to_image` gives for `codec`: the first error among its
/// dimensions, its color type and its samples, asked in that order; else
/// those assembled into an image.
pub open spec fn spec_decoder_result<I: ImageDecoder>(codec: I, r: ImageResult<DynamicImage>) -> bool {
    exists|d1: I, dims: ImageResult<(u32, u32)>|
        #![trigger I::spec_dimensions(codec, d1, dims)]
        I::spec_dimensions(codec, d1, dims) && match dims {
            Err(e) => r == Err::<DynamicImage, ImageError>(e),
            Ok((w, h)) => exists|d2: I, c: ImageResult<ColorType>|
                #![trigger I::spec_colortype(d1, d2, c)]
                I::spec_colortype(d1, d2, c) && match c {
                    Err(e) => r == Err::<DynamicImage, ImageError>(e),
                    Ok(color) => exists|d3: I, b: ImageResult<DecodingResult>|
                        #![trigger I::spec_read_image(d2, d3, b)]
                        I::spec_read_image(d2, d3, b) && match b {
                            Err(e) => r == Err::<DynamicImage, ImageError>(e),
                            Ok(buf) => spec_assembled(w, h, color, buf, r),
                        },
                },
        }
}

/// Decodes an image and stores it into a dynamic image: the decoder's
/// dimensions, color type and samples, assembled by `image_from_samples`.
pub fn decoder_to_image<I: ImageDecoder>(codec: I) -> (r: ImageResult<DynamicImage>)
    ensures
        spec_decoder_result(codec, r),
{
    let ghost c0 = codec;
    let mut codec = codec;
    let dims = codec.dimensions();
    let ghost d1 = codec;
    let ghost g_dims = dims;
    let (w, h) = match dims {
        Ok(d) => d,
        Err(e) => {
            assert(I::spec_dimensions(c0, d1, g_dims));
            return Err(e);
        },
    };
    let c = codec.colortype();
    let ghost d2 = codec;
    let ghost g_c = c;
    let color = match c {
        Ok(c) => c,
        Err(e) => {
            assert(I::spec_dimensions(c0, d1, g_dims) && I::spec_colortype(d1, d2, g_c));
            return Err(e);
        },
    };
    let b = codec.read_image();
    let ghost d3 = codec;
    let ghost g_b = b;
    let buf = match b {
        Ok(b) => b,
        Err(e) => {
            assert(I::spec_dimensions(c0, d1, g_dims) && I::spec_colortype(d1, d2, g_c)
                && I::spec_read_image(d2, d3, g_b));
            return Err(e);
        },
    };
    let r = image_from_samples(w, h, color, buf);
    assert(I::spec_dimensions(c0, d1, g_dims) && I::spec_colortype(d1, d2, g_c)
        && I::spec_read_image(d2, d3, g_b));
    r
}

/// Whether `b` starts with `sig`.
pub open spec fn spec_starts_with(b: Seq<u8>, sig: Seq<u8>) -> bool {
    sig.len() <= b.len() && b.subrange(0, sig.len() as int) == sig
}

/// The format whose signature `b` starts with, trying the signatures in
/// order: PNG, JPEG, GIF (two versions), WEBP, TIFF (two byte orders), BMP,
/// ICO. TGA has none.
pub open spec fn spec_guess_format(b: Seq<u8>) -> Option<ImageFormat> {
    if spec_starts_with(b, seq![0x89u8, 0x50, 0x4e, 0x47, 0x0d, 0x0a, 0x1a, 0x0a]) {
        Some(ImageFormat::PNG)
    } else if spec_starts_with(b, seq![0xffu8, 0xd8, 0xff]) {
        Some(ImageFormat::JPEG)
    } else if spec_starts_with(b, seq![0x47u8, 0x49, 0x46, 0x38, 0x39, 0x61]) {
        Some(ImageFormat::GIF)
    } else if spec_starts_with(b, seq![0x47u8, 0x49, 0x46, 0x38, 0x37, 0x61]) {
        Some(ImageFormat::GIF)
    } else if spec_starts_with(b, seq![0x57u8, 0x45, 0x42, 0x50]) {
        Some(ImageFormat::WEBP)
    } else if spec_starts_with(b, seq![0x4du8, 0x4d, 0x00, 0x2a]) {
        Some(ImageFormat::TIFF)
    } else if spec_starts_with(b, seq![0x49u8, 0x49, 0x2a, 0x00]) {
        Some(ImageFormat::TIFF)
    } else if spec_starts_with(b, seq![0x42u8, 0x4d]) {
        Some(ImageFormat::BMP)
    } else if spec_starts_with(b, seq![0x00u8, 0x00, 0x01, 0x00]) {
        Some(ImageFormat::ICO)
    } else {
        None
    }
}

fn starts_with(b: &[u8], sig: &[u8]) -> (r: bool)
    ensures
        r == spec_starts_with(b@, sig@),
{
    if sig.len() > b.len() {
        return false;
    }
    let mut k: usize = 0;
    while k < sig.len()
        invariant
            sig@.len() <= b@.len(),
            k <= sig@.len(),
            forall|i: int| 0 <= i < k ==> b@[i] == sig@[i],
        decreases sig@.len() - k,
    {
        if b[k] != sig[k] {
            assert(b@.subrange(0, sig@.len() as int)[k as int] != sig@[k as int]);
            return false;
        }
        k = k + 1;
    }
    assert(b@.subrange(0, sig@.len() as int) =~= sig@);
    true
}

/// Guesses the format of an image from its leading bytes.
pub fn guess_format(buffer: &[u8]) -> (r: Option<ImageFormat>)
    ensures
        r == spec_guess_format(buffer@),
{
    if starts_with(buffer, &[0x89u8, 0x50, 0x4e, 0x47, 0x0d, 0x0a, 0x1a, 0x0a]) {
        Some(ImageFormat::PNG)
    } else if starts_with(buffer, &[0xffu8, 0xd8, 0xff]) {
        Some(ImageFormat::JPEG)
    } else if starts_with(buffer, &[0x47u8, 0x49, 0x46, 0x38, 0x39, 0x61]) {
        Some(ImageFormat::GIF)
    } else if starts_with(buffer, &[0x47u8, 0x49, 0x46, 0x38, 0x37, 0x61]) {
        Some(ImageFormat::GIF)
    } else if starts_with(buffer, &[0x57u8, 0x45, 0x42, 0x50]) {
        Some(ImageFormat::WEBP)
    } else if starts_with(buffer, &[0x4du8, 0x4d, 0x00, 0x2a]) {
        Some(ImageFormat::TIFF)
    } else if starts_with(buffer, &[0x49u8, 0x49, 0x2a, 0x00]) {
        Some(ImageFormat::TIFF)
    } else if starts_with(buffer, &[0x42u8, 0x4d]) {
        Some(ImageFormat::BMP)
    } else if starts_with(buffer, &[0x00u8, 0x00, 0x01, 0x00]) {
        Some(ImageFormat::ICO)
    } else {
        None
    }
}

/// A TIFF file starts with one of two markers; each is read as TIFF and
/// fixes the byte order of every later multi-byte read.
pub proof fn lemma_tiff_markers(b: Seq<u8>)
    ensures
        spec_starts_with(b, seq![0x49u8, 0x49, 0x2a, 0x00]) ==> spec_guess_format(b) == Some(
            ImageFormat::TIFF,
        ) && spec_marker(b) == Some(crate::tiff::stream::ByteOrder::LittleEndian),
        spec_starts_with(b, seq![0x4du8, 0x4d, 0x00, 0x2a]) ==> spec_guess_format(b) == Some(
            ImageFormat::TIFF,
        ) && spec_marker(b) == Some(crate::tiff::stream::ByteOrder::BigEndian),
{
    if spec_starts_with(b, seq![0x49u8, 0x49, 0x2a, 0x00]) {
        assert(b[0] == b.subrange(0, 4)[0] && b[1] == b.subrange(0, 4)[1]);
        assert(b.subrange(0, 2) != seq![0x42u8, 0x4d]);
    }
    if spec_starts_with(b, seq![0x4du8, 0x4d, 0x00, 0x2a]) {
        assert(b[0] == b.subrange(0, 4)[0] && b[1] == b.subrange(0, 4)[1]);
    }
}

fn copy_bytes(buf: &[u8]) -> (r: Vec<u8>)
    ensures
        r@ == buf@,
{
    let mut v: Vec<u8> = Vec::new();
    let mut k: usize = 0;
    while k < buf.len()
        invariant
            k <= buf@.len(),
            v@ == buf@.subrange(0, k as int),
        decreases buf@.len() - k,
    {
        v.push(buf[k]);
        k = k + 1;
        assert(v@ =~= buf@.subrange(0, k as int));
    }
    assert(buf@.subrange(0, buf@.len() as int) =~= buf@);
    v
}

/// The message of the error for a format that has no decoder here.
pub open spec fn spec_unsupported_message(format: ImageFormat) -> Seq<char> {
    match format {
        ImageFormat::PNG => "A decoder for PNG is not available."@,
        ImageFormat::JPEG => "A decoder for JPEG is not available."@,
        ImageFormat::GIF => "A decoder for GIF is not available."@,
        ImageFormat::WEBP => "A decoder for WEBP is not available."@,
        ImageFormat::PPM => "A decoder for PPM is not available."@,
        ImageFormat::TIFF => "A decoder for TIFF is not available."@,
        ImageFormat::TGA => "A decoder for TGA is not available."@,
        ImageFormat::BMP => "A decoder for BMP is not available."@,
        ImageFormat::ICO => "A decoder for ICO is not available."@,
    }
}

/// The message of the error for a format that has no decoder here.
pub fn unsupported_message(format: ImageFormat) -> (r: &'static str)
    ensures
        r@ == spec_unsupported_message(format),
{
    match format {
        ImageFormat::PNG => "A decoder for PNG is not available.",
        ImageFormat::JPEG => "A decoder for JPEG is not available.",
        ImageFormat::GIF => "A decoder for GIF is not available.",
        ImageFormat::WEBP => "A decoder for WEBP is not available.",
        ImageFormat::PPM => "A decoder for PPM is not available.",
        ImageFormat::TIFF => "A decoder for TIFF is not available.",
        ImageFormat::TGA => "A decoder for TGA is not available.",
        ImageFormat::BMP => "A decoder for BMP is not available.",
        ImageFormat::ICO => "A decoder for ICO is not available.",
    }
}

/// How `w * h * planes` samples compare with the `w * h * n` that `w * h`
/// pixels of `n` channels need.
proof fn lemma_enough_samples(w: u32, h: u32, planes: nat, n: nat)
    ensures
        (w as nat * h as nat * planes == w as nat * h as nat * n) <==> (w as nat * h as nat == 0
            || planes == n),
        (w as nat * h as nat * planes < w as nat * h as nat * n) <==> (w as nat * h as nat > 0
            && planes < n),
{
    let p = w as nat * h as nat;
    if p == 0 {
        assert(p * planes == 0 && p * n == 0);
    } else if planes > n {
        assert(p * planes > p * n) by (nonlinear_arith)
            requires
                planes > n,
                p > 0,
        ;
    } else if planes == n {
    } else {
        assert(p * planes < p * n) by (nonlinear_arith)
            requires
                planes < n,
                p > 0,
        ;
    }
}

/// What loading a TIFF image of the given width, height, bits of each sample
/// and samples of each pixel gives: its color type decides the variant, and
/// the sample buffer, of `width * height * planes` samples, must hold exactly
/// the samples of the pixels.
pub open spec fn spec_tiff_loaded(g: (u32, u32, Seq<u16>, u32), r: ImageResult<DynamicImage>) -> bool {
    let (w, h, bits, s) = g;
    let size = w as nat * h as nat * bits.len();
    match spec_tiff_color(bits, s) {
        None => r matches Err(ImageError::UnsupportedError(_)),
        Some(c) => if size > usize::MAX {
            r matches Err(ImageError::DimensionError)
        } else {
            match spec_layout_channels(c) {
                None => r matches Err(ImageError::UnsupportedColor(k)) && k == c,
                Some(n) => {
                    &&& (r is Ok <==> (w as nat * h as nat == 0 || bits.len() == n))
                    &&& (w as nat * h as nat > 0 && bits.len() < n ==> (r matches Err(
                        ImageError::NotEnoughData,
                    )))
                    &&& (w as nat * h as nat > 0 && bits.len() > n ==> (r matches Err(
                        ImageError::DimensionError,
                    )))
                    &&& (r matches Ok(img) ==> img.inv() && img.spec_color() == c
                        && img.spec_dimensions() == (w, h))
                },
            }
        },
    }
}

/// What loading a WEBP file gives: a key frame's size, and its luma plane,
/// which stays empty until a VP8 decoder fills it; so only an empty frame
/// makes an image.
pub open spec fn spec_webp_loaded(buf: Seq<u8>, r: ImageResult<DynamicImage>) -> bool {
    match spec_webp_size(buf) {
        None => r matches Err(ImageError::FormatError(_)),
        Some((w, h)) => {
            &&& (r is Ok <==> w as nat * h as nat == 0)
            &&& (r is Err ==> (r matches Err(ImageError::NotEnoughData)))
            &&& (r matches Ok(img) ==> img.inv() && img.spec_color() == ColorType::Gray(8)
                && img.spec_dimensions() == (w as u32, h as u32))
        },
    }
}

/// The error of a TIFF load whose file cannot be opened: the error that
/// opening it gives, the end of the image when the data runs out and a format
/// error otherwise.
pub open spec fn spec_tiff_open_failed(buf: Seq<u8>, r: ImageResult<DynamicImage>) -> bool {
    &&& r is Err
    &&& (r matches Err(ImageError::ImageEnd)) <==> spec_open_truncated(buf)
    &&& (r matches Err(ImageError::ImageEnd)) || (r matches Err(ImageError::FormatError(_)))
}

/// What loading `buf` in `format` gives.
pub open spec fn spec_loaded(buf: Seq<u8>, format: ImageFormat, r: ImageResult<DynamicImage>) -> bool {
    match format {
        ImageFormat::TIFF => {
            &&& (spec_marker(buf) is None ==> (r matches Err(ImageError::FormatError(_))))
            &&& (match spec_header(buf) {
                None => spec_tiff_open_failed(buf, r),
                Some(hd) => match spec_image_at(buf, hd.0, hd.1) {
                    None => spec_tiff_open_failed(buf, r),
                    Some(g) => spec_tiff_loaded(g, r),
                },
            })
        },
        ImageFormat::WEBP => spec_webp_loaded(buf, r),
        _ => r matches Err(ImageError::UnsupportedError(m)) && m@ == spec_unsupported_message(format),
    }
}

/// Assembles the current image of a TIFF decoder: its dimensions, color type
/// and samples, put together by `image_from_samples`.
fn tiff_to_image(d: TIFFDecoder) -> (r: ImageResult<DynamicImage>)
    requires
        d.inv(),
    ensures
        spec_tiff_loaded(d.spec_geometry(), r),
{
    let mut d = d;
    let ghost g = d.spec_geometry();
    let (w, h) = match d.dimensions() {
        Ok(t) => t,
        Err(e) => return Err(e),
    };
    let color = match d.colortype() {
        Ok(c) => c,
        Err(e) => return Err(e),
    };
    let buf = match d.read_image() {
        Ok(b) => b,
        Err(e) => return Err(e),
    };
    proof {
        match spec_layout_channels(color) {
            Some(n) => lemma_enough_samples(w, h, g.2.len(), n),
            None => {},
        }
    }
    image_from_samples(w, h, color, buf)
}

/// Assembles the key frame of a WEBP decoder that has read nothing yet.
fn webp_to_image(d: WebpDecoder) -> (r: ImageResult<DynamicImage>)
    requires
        !d.spec_have_frame(),
        d.spec_frame().2 == Seq::<u8>::empty(),
    ensures
        spec_webp_loaded(d.spec_data(), r),
{
    let mut d = d;
    let (w, h) = match d.dimensions() {
        Ok(t) => t,
        Err(e) => return Err(e),
    };
    let color = match d.colortype() {
        Ok(c) => c,
        Err(e) => return Err(e),
    };
    let buf = match d.read_image() {
        Ok(b) => b,
        Err(e) => return Err(e),
    };
    proof {
        assert(w as nat * h as nat * 1 == w as nat * h as nat);
        assert(buf matches DecodingResult::U8(v) && v@.len() == 0);
    }
    image_from_samples(w, h, color, buf)
}

/// Creates a new image from a byte slice in the given format. Only TIFF and
/// WEBP have a decoder here; any other format is unsupported.
pub fn load_from_memory_with_format(buf: &[u8], format: ImageFormat) -> (r: ImageResult<
    DynamicImage,
>)
    ensures
        spec_loaded(buf@, format, r),
{
    match format {
        ImageFormat::WEBP => webp_to_image(WebpDecoder::new(copy_bytes(buf))),
        ImageFormat::TIFF => match TIFFDecoder::new(copy_bytes(buf)) {
            Ok(d) => tiff_to_image(d),
            Err(e) => Err(e),
        },
        _ => Err(ImageError::UnsupportedError(unsupported_message(format).to_owned())),
    }
}

/// Creates a new image from a byte slice, guessing its format from its
/// leading bytes; the result is then that of `load_from_memory_with_format`
/// in the format guessed. TGA is never guessed.
pub fn load_from_memory(buffer: &[u8]) -> (r: ImageResult<DynamicImage>)
    ensures
        spec_guess_format(buffer@) is None ==> (r matches Err(ImageError::UnsupportedError(m))
            && m@ == "Unsupported image format"@),
        spec_guess_format(buffer@) matches Some(f) ==> spec_loaded(buffer@, f, r),
{
    match guess_format(buffer) {
        Some(format) => load_from_memory_with_format(buffer, format),
        None => Err(ImageError::UnsupportedError("Unsupported image format".to_owned())),
    }
}

} // verus!
