//! The image capability, rectangular views, decoders' contract and errors.

use vstd::prelude::*;

use crate::buffer::ImageBuffer;
use crate::color::{ColorType, Pixel};

verus! {

/// std's `io::Error`, carried unopened in `ImageError::IoError` to report a
/// transport failure.
#[verifier::external_type_specification]
#[verifier::external_body]
pub struct ExIoError(std::io::Error);

/// An enumeration of image errors.
#[derive(Debug)]
pub enum ImageError {
    /// The image is not formatted properly
    FormatError(String),
    /// The image's dimensions are either too small or too large
    DimensionError,
    /// The decoder does not support this image format
    UnsupportedError(String),
    /// The decoder does not support this color type
    UnsupportedColor(ColorType),
    /// Not enough data was provided to the decoder to decode the image
    NotEnoughData,
    /// An I/O error occurred while decoding the image
    IoError(std::io::Error),
    /// The end of the image has been reached
    ImageEnd,
}

impl ImageError {
    /// A short description of the kind of this error.
    pub fn description(&self) -> (r: &'static str)
        ensures
            r@ == spec_description(self),
    {
        match self {
            ImageError::FormatError(..) => "Format error",
            ImageError::DimensionError => "Dimension error",
            ImageError::UnsupportedError(..) => "Unsupported error",
            ImageError::UnsupportedColor(..) => "Unsupported color",
            ImageError::NotEnoughData => "Not enough data",
            ImageError::IoError(..) => "IO error",
            ImageError::ImageEnd => "Image end",
        }
    }

    /// The transport failure that caused this error, if any.
    pub fn cause(&self) -> (r: Option<&std::io::Error>)
        ensures
            r is Some <==> self is IoError,
            self matches ImageError::IoError(e) ==> r == Some(e),
    {
        match self {
            ImageError::IoError(e) => Some(e),
            _ => None,
        }
    }
}

/// The description of each kind of error.
pub open spec fn spec_description(e: &ImageError) -> Seq<char> {
    match e {
        ImageError::FormatError(..) => "Format error"@,
        ImageError::DimensionError => "Dimension error"@,
        ImageError::UnsupportedError(..) => "Unsupported error"@,
        ImageError::UnsupportedColor(..) => "Unsupported color"@,
        ImageError::NotEnoughData => "Not enough data"@,
        ImageError::IoError(..) => "IO error"@,
        ImageError::ImageEnd => "Image end"@,
    }
}

impl From<std::io::Error> for ImageError {
    fn from(err: std::io::Error) -> (r: ImageError) {
        ImageError::IoError(err)
    }
}

impl vstd::std_specs::convert::FromSpecImpl<std::io::Error> for ImageError {
    open spec fn obeys_from_spec() -> bool {
        true
    }

    open spec fn from_spec(err: std::io::Error) -> ImageError {
        ImageError::IoError(err)
    }
}

/// Result of an image decoding/encoding process.
pub type ImageResult<T> = Result<T, ImageError>;

/// Result of a decoding process.
pub enum DecodingResult {
    /// A vector of unsigned bytes
    U8(Vec<u8>),
    /// A vector of unsigned words
    U16(Vec<u16>),
}

/// An enumeration of supported image formats.
#[derive(Clone, Copy, PartialEq, Eq, Debug, Structural)]
pub enum ImageFormat {
    /// An image in PNG format
    PNG,
    /// An image in JPEG format
    JPEG,
    /// An image in GIF format
    GIF,
    /// An image in WEBP format
    WEBP,
    /// An image in PPM format
    PPM,
    /// An image in TIFF format
    TIFF,
    /// An image in TGA format
    TGA,
    /// An image in BMP format
    BMP,
    /// An image in ICO format
    ICO,
}

/// The trait that all decoders implement.
///
/// Each call is described by a relation between the decoder before the call,
/// the decoder after it, and what it returns; a decoder may read its header
/// lazily, on the first call that needs it.
pub trait ImageDecoder: Sized {
    /// What `dimensions` may return and leave behind.
    spec fn spec_dimensions(old: Self, new: Self, r: ImageResult<(u32, u32)>) -> bool;

    /// What `colortype` may return and leave behind.
    spec fn spec_colortype(old: Self, new: Self, r: ImageResult<ColorType>) -> bool;

    /// What `read_image` may return and leave behind.
    spec fn spec_read_image(old: Self, new: Self, r: ImageResult<DecodingResult>) -> bool;

    /// Returns a tuple containing the width and height of the image.
    fn dimensions(&mut self) -> (r: ImageResult<(u32, u32)>)
        ensures
            Self::spec_dimensions(*old(self), *final(self), r),
    ;

    /// Returns the layout and bit depth of the decoded samples.
    fn colortype(&mut self) -> (r: ImageResult<ColorType>)
        ensures
            Self::spec_colortype(*old(self), *final(self), r),
    ;

    /// Decodes the entire image and returns its samples.
    fn read_image(&mut self) -> (r: ImageResult<DecodingResult>)
        ensures
            Self::spec_read_image(*old(self), *final(self), r),
    ;
}

/// Whether `(x, y)` lies in the half-open rectangle `(left, top, width, height)`.
pub open spec fn spec_in_rect(r: (u32, u32, u32, u32), x: u32, y: u32) -> bool {
    r.0 <= x < r.0 + r.2 && r.1 <= y < r.1 + r.3
}

/// Whether `(x, y)` lies inside the dimensions of `img`.
pub open spec fn spec_in_dims<I: GenericImage>(img: &I, x: u32, y: u32) -> bool {
    x < img.spec_dimensions().0 && y < img.spec_dimensions().1
}

/// `b` is a well-formed image of the same shape as `a`.
pub open spec fn same_shape<I: GenericImage>(a: &I, b: &I) -> bool {
    &&& b.inv()
    &&& b.spec_dimensions() == a.spec_dimensions()
    &&& b.spec_bounds() == a.spec_bounds()
}

/// A trait for manipulating images.
pub trait GenericImage: Sized {
    /// The type of pixel.
    type Pixel: Pixel;

    /// The width and height.
    spec fn spec_dimensions(&self) -> (u32, u32);

    /// The bounding rectangle: left, top, width, height.
    spec fn spec_bounds(&self) -> (u32, u32, u32, u32);

    /// The pixel at `(x, y)`, counted from the top-left corner of this image.
    spec fn spec_pixel(&self, x: u32, y: u32) -> Self::Pixel;

    /// Well-formedness.
    spec fn inv(&self) -> bool;

    /// The width and height of this image.
    fn dimensions(&self) -> (r: (u32, u32))
        ensures
            r == self.spec_dimensions(),
    ;

    /// The width of this image.
    fn width(&self) -> (r: u32)
        ensures
            r == self.spec_dimensions().0,
    {
        let (w, _) = self.dimensions();
        w
    }

    /// The height of this image.
    fn height(&self) -> (r: u32)
        ensures
            r == self.spec_dimensions().1,
    {
        let (_, h) = self.dimensions();
        h
    }

    /// The bounding rectangle of this image.
    fn bounds(&self) -> (r: (u32, u32, u32, u32))
        ensures
            r == self.spec_bounds(),
    ;

    /// Returns true if this x, y coordinate is contained inside the bounding
    /// rectangle of the image.
    fn in_bounds(&self, x: u32, y: u32) -> (r: bool)
        ensures
            r == spec_in_rect(self.spec_bounds(), x, y),
    {
        let (ix, iy, iw, ih) = self.bounds();
        if x < ix || x - ix >= iw {
            false
        } else if y < iy || y - iy >= ih {
            false
        } else {
            true
        }
    }

    /// Returns the pixel located at (x, y).
    fn get_pixel(&self, x: u32, y: u32) -> (r: Self::Pixel)
        requires
            self.inv(),
            x < self.spec_dimensions().0 && y < self.spec_dimensions().1,
        ensures
            r == self.spec_pixel(x, y),
    ;

    /// Returns a mutable reference to the pixel located at (x, y).
    fn get_pixel_mut(&mut self, x: u32, y: u32) -> (r: &mut Self::Pixel)
        requires
            old(self).inv(),
            x < old(self).spec_dimensions().0 && y < old(self).spec_dimensions().1,
        ensures
            *r == old(self).spec_pixel(x, y),
            final(self).inv(),
            final(self).spec_dimensions() == old(self).spec_dimensions(),
            final(self).spec_bounds() == old(self).spec_bounds(),
            final(self).spec_pixel(x, y) == *final(r),
            forall|i: u32, j: u32|
                i < old(self).spec_dimensions().0 && j < old(self).spec_dimensions().1 && !(i == x
                    && j == y) ==> #[trigger] final(self).spec_pixel(i, j) == old(self).spec_pixel(
                    i,
                    j,
                ),
    ;

    /// Returns the pixel located at (x, y), for coordinates that the caller
    /// has checked.
    fn unsafe_get_pixel(&self, x: u32, y: u32) -> (r: Self::Pixel)
        requires
            self.inv(),
            x < self.spec_dimensions().0 && y < self.spec_dimensions().1,
        ensures
            r == self.spec_pixel(x, y),
    {
        self.get_pixel(x, y)
    }

    /// Puts a pixel at location (x, y).
    fn put_pixel(&mut self, x: u32, y: u32, pixel: Self::Pixel)
        requires
            old(self).inv(),
            x < old(self).spec_dimensions().0 && y < old(self).spec_dimensions().1,
        ensures
            final(self).inv(),
            final(self).spec_dimensions() == old(self).spec_dimensions(),
            final(self).spec_bounds() == old(self).spec_bounds(),
            final(self).spec_pixel(x, y) == pixel,
            forall|i: u32, j: u32|
                i < old(self).spec_dimensions().0 && j < old(self).spec_dimensions().1 && !(i == x
                    && j == y) ==> #[trigger] final(self).spec_pixel(i, j) == old(self).spec_pixel(
                    i,
                    j,
                ),
    ;

    /// Puts a pixel at location (x, y), for coordinates that the caller has
    /// checked.
    fn unsafe_put_pixel(&mut self, x: u32, y: u32, pixel: Self::Pixel)
        requires
            old(self).inv(),
            x < old(self).spec_dimensions().0 && y < old(self).spec_dimensions().1,
        ensures
            final(self).inv(),
            final(self).spec_dimensions() == old(self).spec_dimensions(),
            final(self).spec_bounds() == old(self).spec_bounds(),
            final(self).spec_pixel(x, y) == pixel,
            forall|i: u32, j: u32|
                i < old(self).spec_dimensions().0 && j < old(self).spec_dimensions().1 && !(i == x
                    && j == y) ==> #[trigger] final(self).spec_pixel(i, j) == old(self).spec_pixel(
                    i,
                    j,
                ),
    {
        self.put_pixel(x, y, pixel);
    }

    /// Composites a pixel over the one at location (x, y).
    fn blend_pixel(&mut self, x: u32, y: u32, pixel: Self::Pixel)
        requires
            old(self).inv(),
            x < old(self).spec_dimensions().0 && y < old(self).spec_dimensions().1,
        ensures
            final(self).inv(),
            final(self).spec_dimensions() == old(self).spec_dimensions(),
            final(self).spec_bounds() == old(self).spec_bounds(),
            final(self).spec_pixel(x, y) == old(self).spec_pixel(x, y).spec_blend(pixel),
            forall|i: u32, j: u32|
                i < old(self).spec_dimensions().0 && j < old(self).spec_dimensions().1 && !(i == x
                    && j == y) ==> #[trigger] final(self).spec_pixel(i, j) == old(self).spec_pixel(
                    i,
                    j,
                ),
    ;

    /// Returns a cursor over the pixels of this image, row by row.
    fn pixels(&self) -> (r: Pixels<'_, Self>)
        requires
            self.inv(),
        ensures
            *r.image == *self,
            (r.width, r.height) == self.spec_dimensions(),
            r.x == 0,
            r.y == 0,
    {
        let (width, height) = self.dimensions();
        Pixels { image: self, x: 0, y: 0, width, height }
    }

    /// Returns a cursor that visits the pixels of this image row by row and
    /// can replace each pixel it has just yielded.
    fn pixels_mut(&mut self) -> (r: MutPixels<'_, Self>)
        requires
            old(self).inv(),
        ensures
            *r.image == *old(self),
            *final(r.image) == *final(self),
            (r.width, r.height) == old(self).spec_dimensions(),
            r.x == 0,
            r.y == 0,
    {
        let (width, height) = self.dimensions();
        MutPixels { image: self, x: 0, y: 0, width, height }
    }

    /// Returns a view into the rectangle of this image with its top-left
    /// corner at (x, y).
    fn sub_image(&mut self, x: u32, y: u32, width: u32, height: u32) -> (r: SubImage<'_, Self>)
        requires
            old(self).inv(),
            x + width <= old(self).spec_dimensions().0,
            y + height <= old(self).spec_dimensions().1,
        ensures
            *r.image == *old(self),
            *final(r.image) == *final(self),
            (r.xoffset, r.yoffset, r.xstride, r.ystride) == (x, y, width, height),
    {
        SubImage { image: self, xoffset: x, yoffset: y, xstride: width, ystride: height }
    }
}

/// Copies all of the pixels of `other` into `dst`, with the
/// top-left corner of `other` placed at (x, y).
///
/// Returns `false`, and leaves `dst` as it was, when `other` does not fit
/// there. To copy only a piece of `other`, pass a view of it.
pub fn copy_from<D: GenericImage, O: GenericImage<Pixel = D::Pixel>>(
dst: &mut D,
other: &O,
x: u32,
y: u32,
) -> (r: bool)
    requires
        old(dst).inv(),
        other.inv(),
    ensures
        r == spec_fits(old(dst).spec_dimensions(), other.spec_dimensions(), x, y),
        !r ==> *final(dst) == *old(dst),
        r ==> same_shape(old(dst), final(dst)),
        r ==> forall|i: u32, j: u32|
            spec_in_dims(other, i, j) ==> #[trigger] final(dst).spec_pixel(
                (i + x) as u32,
                (j + y) as u32,
            ) == other.spec_pixel(i, j),
        r ==> forall|i: u32, j: u32|
            spec_in_dims(old(dst), i, j) && !spec_in_rect(
                (x, y, other.spec_dimensions().0, other.spec_dimensions().1),
                i,
                j,
            ) ==> #[trigger] final(dst).spec_pixel(i, j) == old(dst).spec_pixel(i, j),
{
    let (sw, sh) = dst.dimensions();
    let (ow, oh) = other.dimensions();
    if (sw as u64) < (ow as u64) + (x as u64) {
        return false;
    } else if (sh as u64) < (oh as u64) + (y as u64) {
        return false;
    }
    let ghost start = *dst;
    let mut i: u32 = 0;
    while i < ow
        invariant
            i <= ow,
            ow == other.spec_dimensions().0,
            oh == other.spec_dimensions().1,
            other.inv(),
            ow + x <= sw,
            oh + y <= sh,
            same_shape(&start, dst),
            start.spec_dimensions() == (sw, sh),
            forall|a: u32, b: u32|
                a < i && b < oh ==> #[trigger] dst.spec_pixel((a + x) as u32, (b + y) as u32)
                    == other.spec_pixel(a, b),
            forall|a: u32, b: u32|
                a < sw && b < sh && !spec_in_rect((x, y, i, oh), a, b) ==> #[trigger] dst.spec_pixel(
                    a,
                    b,
                ) == start.spec_pixel(a, b),
        decreases ow - i,
    {
        let mut k: u32 = 0;
        while k < oh
            invariant
                i < ow,
                k <= oh,
                ow == other.spec_dimensions().0,
                oh == other.spec_dimensions().1,
                other.inv(),
                ow + x <= sw,
                oh + y <= sh,
                same_shape(&start, dst),
                start.spec_dimensions() == (sw, sh),
                forall|a: u32, b: u32|
                    (a < i && b < oh) || (a == i && b < k) ==> #[trigger] dst.spec_pixel(
                        (a + x) as u32,
                        (b + y) as u32,
                    ) == other.spec_pixel(a, b),
                forall|a: u32, b: u32|
                    a < sw && b < sh && !spec_in_rect((x, y, i, oh), a, b) && !(a == i + x
                        && y <= b < k + y) ==> #[trigger] dst.spec_pixel(a, b)
                        == start.spec_pixel(a, b),
            decreases oh - k,
        {
            let p = other.unsafe_get_pixel(i, k);
            let ghost before = *dst;
            dst.unsafe_put_pixel(i + x, k + y, p);
            proof {
                assert forall|a: u32, b: u32|
                    (a < i && b < oh) || (a == i && b < k + 1) implies #[trigger] dst.spec_pixel(
                    (a + x) as u32,
                    (b + y) as u32,
                ) == other.spec_pixel(a, b) by {
                    if !(a == i && b == k) {
                        assert(before.spec_pixel((a + x) as u32, (b + y) as u32)
                            == other.spec_pixel(a, b));
                    }
                }
                assert forall|a: u32, b: u32|
                    a < sw && b < sh && !spec_in_rect((x, y, i, oh), a, b) && !(a == i + x
                        && y <= b < k + 1 + y) implies #[trigger] dst.spec_pixel(a, b)
                    == start.spec_pixel(a, b) by {
                    assert(before.spec_pixel(a, b) == start.spec_pixel(a, b));
                }
            }
            k = k + 1;
        }
        proof {
            assert forall|a: u32, b: u32|
                a < sw && b < sh && !spec_in_rect((x, y, (i + 1) as u32, oh), a, b) implies #[trigger] dst.spec_pixel(
                a,
                b,
            ) == start.spec_pixel(a, b) by {
                assert(!spec_in_rect((x, y, i, oh), a, b));
            }
        }
        i = i + 1;
    }
    true
}


/// Whether an image of dimensions `inner` fits into one of dimensions `outer`
/// with its top-left corner at `(x, y)`.
pub open spec fn spec_fits(outer: (u32, u32), inner: (u32, u32), x: u32, y: u32) -> bool {
    inner.0 + x <= outer.0 && inner.1 + y <= outer.1
}

/// A cursor over the pixels of an image, row by row from the top, each row
/// from the left.
pub struct Pixels<'a, I: GenericImage> {
    /// The image visited.
    pub image: &'a I,
    /// Column of the last pixel yielded, plus one.
    pub x: u32,
    /// Row of the last pixel yielded.
    pub y: u32,
    /// Width of the image.
    pub width: u32,
    /// Height of the image.
    pub height: u32,
}

impl<'a, I: GenericImage> Pixels<'a, I> {
    /// Well-formedness: the cursor covers the whole image.
    pub open spec fn inv(&self) -> bool {
        &&& self.image.inv()
        &&& (self.width, self.height) == self.image.spec_dimensions()
    }

    /// Whether no pixel is left to visit.
    pub open spec fn spec_done(&self) -> bool {
        ||| self.width == 0
        ||| self.y >= self.height
        ||| (self.x >= self.width && self.y + 1 >= self.height)
    }

    /// The coordinates of the next pixel to visit, if any is left.
    pub open spec fn spec_next_coord(&self) -> (u32, u32) {
        if self.x >= self.width {
            (0, (self.y + 1) as u32)
        } else {
            (self.x, self.y)
        }
    }

    /// Yields the next pixel with its coordinates.
    pub fn next(&mut self) -> (r: Option<(u32, u32, I::Pixel)>)
        requires
            old(self).inv(),
        ensures
            final(self).inv(),
            final(self).image == old(self).image,
            r is None <==> old(self).spec_done(),
            r is None ==> *final(self) == *old(self),
            r matches Some(t) ==> {
                &&& (t.0, t.1) == old(self).spec_next_coord()
                &&& t.2 == old(self).image.spec_pixel(t.0, t.1)
                &&& final(self).x == t.0 + 1
                &&& final(self).y == t.1
            },
    {
        if self.width == 0 || self.y >= self.height {
            return None;
        }
        if self.x >= self.width {
            if self.y >= self.height - 1 {
                return None;
            }
            self.x = 0;
            self.y = self.y + 1;
        }
        let pixel = self.image.get_pixel(self.x, self.y);
        let p = (self.x, self.y, pixel);
        self.x = self.x + 1;
        Some(p)
    }
}

/// A cursor over the pixels of an image that it borrows exclusively, row by
/// row from the top, each row from the left. It hands out copies of the
/// pixels, never references into the image, and writes a pixel back on
/// request.
pub struct MutPixels<'a, I: GenericImage> {
    /// The image visited.
    pub image: &'a mut I,
    /// Column of the last pixel yielded, plus one.
    pub x: u32,
    /// Row of the last pixel yielded.
    pub y: u32,
    /// Width of the image.
    pub width: u32,
    /// Height of the image.
    pub height: u32,
}

impl<'a, I: GenericImage> MutPixels<'a, I> {
    /// Well-formedness: the cursor covers the whole image.
    pub open spec fn inv(&self) -> bool {
        &&& self.image.inv()
        &&& (self.width, self.height) == self.image.spec_dimensions()
    }

    /// Whether no pixel is left to visit.
    pub open spec fn spec_done(&self) -> bool {
        ||| self.width == 0
        ||| self.y >= self.height
        ||| (self.x >= self.width && self.y + 1 >= self.height)
    }

    /// The coordinates of the next pixel to visit, if any is left.
    pub open spec fn spec_next_coord(&self) -> (u32, u32) {
        if self.x >= self.width {
            (0, (self.y + 1) as u32)
        } else {
            (self.x, self.y)
        }
    }

    /// Yields a copy of the next pixel with its coordinates.
    pub fn next(&mut self) -> (r: Option<(u32, u32, I::Pixel)>)
        requires
            old(self).inv(),
        ensures
            final(self).inv(),
            *final(self).image == *old(self).image,
            r is None <==> old(self).spec_done(),
            r is None ==> final(self).x == old(self).x && final(self).y == old(self).y,
            r matches Some(t) ==> {
                &&& (t.0, t.1) == old(self).spec_next_coord()
                &&& t.2 == old(self).image.spec_pixel(t.0, t.1)
                &&& final(self).x == t.0 + 1
                &&& final(self).y == t.1
            },
    {
        if self.width == 0 || self.y >= self.height {
            return None;
        }
        if self.x >= self.width {
            if self.y >= self.height - 1 {
                return None;
            }
            self.x = 0;
            self.y = self.y + 1;
        }
        let pixel = self.image.get_pixel(self.x, self.y);
        let p = (self.x, self.y, pixel);
        self.x = self.x + 1;
        Some(p)
    }

    /// Replaces the pixel that `next` yielded last.
    pub fn put_last(&mut self, pixel: I::Pixel)
        requires
            old(self).inv(),
            0 < old(self).x <= old(self).width,
            old(self).y < old(self).height,
        ensures
            final(self).inv(),
            (final(self).x, final(self).y) == (old(self).x, old(self).y),
            final(self).image.spec_pixel((old(self).x - 1) as u32, old(self).y) == pixel,
            forall|i: u32, j: u32|
                i < old(self).width && j < old(self).height && !(i == old(self).x - 1 && j
                    == old(self).y) ==> #[trigger] final(self).image.spec_pixel(i, j)
                    == old(self).image.spec_pixel(i, j),
    {
        self.image.put_pixel(self.x - 1, self.y, pixel);
    }
}

/// The pixels of a well-formed view of a buffer can be counted in a `usize`,
/// as `to_image` asks.
pub proof fn lemma_view_size<P: Pixel>(sub: &SubImage<'_, ImageBuffer<P>>)
    requires
        sub.inv(),
    ensures
        sub.xstride as nat * sub.ystride as nat <= usize::MAX,
{
    let parent = sub.spec_inner();
    crate::buffer::lemma_buffer_size(&parent);
    let (w, h) = parent.spec_dimensions();
    assert(sub.xstride as nat * sub.ystride as nat <= w as nat * h as nat) by (nonlinear_arith)
        requires
            sub.xstride <= w,
            sub.ystride <= h,
    ;
}

/// A view into a rectangle of another image, which it borrows exclusively.
pub struct SubImage<'a, I: GenericImage> {
    /// The image viewed.
    pub image: &'a mut I,
    /// Left edge of the view in the image.
    pub xoffset: u32,
    /// Top edge of the view in the image.
    pub yoffset: u32,
    /// Width of the view.
    pub xstride: u32,
    /// Height of the view.
    pub ystride: u32,
}

impl<'a, I: GenericImage> SubImage<'a, I> {
    /// The image this view borrows.
    pub open spec fn spec_inner(&self) -> I {
        *self.image
    }

    /// Constructs a new view of the rectangle at (x, y) of the given size.
    pub fn new(image: &'a mut I, x: u32, y: u32, width: u32, height: u32) -> (r: SubImage<'a, I>)
        requires
            old(image).inv(),
            x + width <= old(image).spec_dimensions().0,
            y + height <= old(image).spec_dimensions().1,
        ensures
            r.inv(),
            r.spec_inner() == *old(image),
            *final(r.image) == *final(image),
            r.spec_bounds() == (x, y, width, height),
    {
        SubImage { image, xoffset: x, yoffset: y, xstride: width, ystride: height }
    }

    /// Returns a mutable reference to the wrapped image.
    pub fn inner_mut(&mut self) -> (r: &mut I)
        ensures
            *r == old(self).spec_inner(),
            *final(r) == final(self).spec_inner(),
            final(self).spec_bounds() == old(self).spec_bounds(),
    {
        &mut *self.image
    }

    /// Changes the rectangle of this view.
    pub fn change_bounds(&mut self, x: u32, y: u32, width: u32, height: u32)
        requires
            old(self).inv(),
            x + width <= old(self).spec_inner().spec_dimensions().0,
            y + height <= old(self).spec_inner().spec_dimensions().1,
        ensures
            final(self).inv(),
            final(self).spec_inner() == old(self).spec_inner(),
            final(self).spec_bounds() == (x, y, width, height),
    {
        self.xoffset = x;
        self.yoffset = y;
        self.xstride = width;
        self.ystride = height;
    }

    /// Puts a pixel at (x, y) of the view, that is at
    /// (x + xoffset, y + yoffset) of the image it borrows. The image keeps the change once the view is gone.
    pub fn put_pixel(&mut self, x: u32, y: u32, pixel: I::Pixel)
        requires
            old(self).inv(),
            x < old(self).xstride,
            y < old(self).ystride,
        ensures
            final(self).inv(),
            (final(self).xoffset, final(self).yoffset, final(self).xstride, final(self).ystride) == (
                old(self).xoffset,
                old(self).yoffset,
                old(self).xstride,
                old(self).ystride,
            ),
            *final(final(self).image) == *final(old(self).image),
            same_shape(old(self).image, final(self).image),
            final(self).spec_inner().spec_pixel((x + old(self).xoffset) as u32, (y + old(self).yoffset) as u32)
                == pixel,
            forall|i: u32, j: u32|
                spec_in_dims(old(self).image, i, j) && !(i == x + old(self).xoffset && j == y
                    + old(self).yoffset) ==> #[trigger] final(self).spec_inner().spec_pixel(i, j)
                    == old(self).spec_inner().spec_pixel(i, j),
    {
        self.image.put_pixel(x + self.xoffset, y + self.yoffset, pixel);
    }

    /// Composites a pixel over the one at (x, y) of the view, that is at
    /// (x + xoffset, y + yoffset) of the image it borrows. The image keeps the change once the view is gone.
    pub fn blend_pixel(&mut self, x: u32, y: u32, pixel: I::Pixel)
        requires
            old(self).inv(),
            x < old(self).xstride,
            y < old(self).ystride,
        ensures
            final(self).inv(),
            (final(self).xoffset, final(self).yoffset, final(self).xstride, final(self).ystride) == (
                old(self).xoffset,
                old(self).yoffset,
                old(self).xstride,
                old(self).ystride,
            ),
            *final(final(self).image) == *final(old(self).image),
            same_shape(old(self).image, final(self).image),
            final(self).spec_inner().spec_pixel((x + old(self).xoffset) as u32, (y + old(self).yoffset) as u32)
                == old(self).spec_inner().spec_pixel((x + old(self).xoffset) as u32, (y + old(self).yoffset) as u32).spec_blend(pixel),
            forall|i: u32, j: u32|
                spec_in_dims(old(self).image, i, j) && !(i == x + old(self).xoffset && j == y
                    + old(self).yoffset) ==> #[trigger] final(self).spec_inner().spec_pixel(i, j)
                    == old(self).spec_inner().spec_pixel(i, j),
    {
        self.image.blend_pixel(x + self.xoffset, y + self.yoffset, pixel);
    }

    /// Copies the pixels of this view into a new image buffer.
    pub fn to_image(&self) -> (r: ImageBuffer<I::Pixel>)
        requires
            self.inv(),
            self.xstride as nat * self.ystride as nat <= usize::MAX,
        ensures
            r.inv(),
            r.spec_dimensions() == self.spec_dimensions(),
            forall|i: u32, j: u32|
                i < self.xstride && j < self.ystride ==> #[trigger] r.spec_pixel(i, j)
                    == self.spec_inner().spec_pixel(
                    (self.xoffset + i) as u32,
                    (self.yoffset + j) as u32,
                ),
    {
        let mut out = ImageBuffer::new(self.xstride, self.ystride);
        let mut y: u32 = 0;
        while y < self.ystride
            invariant
                self.inv(),
                y <= self.ystride,
                out.inv(),
                out.spec_dimensions() == (self.xstride, self.ystride),
                forall|i: u32, j: u32|
                    i < self.xstride && j < y ==> #[trigger] out.spec_pixel(i, j)
                        == self.spec_pixel(i, j),
            decreases self.ystride - y,
        {
            let mut x: u32 = 0;
            while x < self.xstride
                invariant
                    self.inv(),
                    y < self.ystride,
                    x <= self.xstride,
                    out.inv(),
                    out.spec_dimensions() == (self.xstride, self.ystride),
                    forall|i: u32, j: u32|
                        (i < self.xstride && j < y) || (i < x && j == y) ==> #[trigger] out.spec_pixel(
                            i,
                            j,
                        ) == self.spec_pixel(i, j),
                decreases self.xstride - x,
            {
                let p = self.get_pixel(x, y);
                let ghost before = out;
                out.put_pixel(x, y, p);
                proof {
                    assert forall|i: u32, j: u32|
                        (i < self.xstride && j < y) || (i < x + 1 && j == y) implies #[trigger] out.spec_pixel(
                        i,
                        j,
                    ) == self.spec_pixel(i, j) by {
                        if !(i == x && j == y) {
                            assert(before.spec_pixel(i, j) == self.spec_pixel(i, j));
                        }
                    }
                }
                x = x + 1;
            }
            y = y + 1;
        }
        out
    }
}

impl<'a, I: GenericImage> GenericImage for SubImage<'a, I> {
    type Pixel = I::Pixel;

    open spec fn spec_dimensions(&self) -> (u32, u32) {
        (self.xstride, self.ystride)
    }

    open spec fn spec_bounds(&self) -> (u32, u32, u32, u32) {
        (self.xoffset, self.yoffset, self.xstride, self.ystride)
    }

    open spec fn spec_pixel(&self, x: u32, y: u32) -> I::Pixel {
        self.spec_inner().spec_pixel((x + self.xoffset) as u32, (y + self.yoffset) as u32)
    }

    open spec fn inv(&self) -> bool {
        &&& self.spec_inner().inv()
        &&& self.xoffset + self.xstride <= self.spec_inner().spec_dimensions().0
        &&& self.yoffset + self.ystride <= self.spec_inner().spec_dimensions().1
    }

    fn dimensions(&self) -> (r: (u32, u32)) {
        (self.xstride, self.ystride)
    }

    fn bounds(&self) -> (r: (u32, u32, u32, u32)) {
        (self.xoffset, self.yoffset, self.xstride, self.ystride)
    }

    fn get_pixel(&self, x: u32, y: u32) -> (r: I::Pixel) {
        self.image.get_pixel(x + self.xoffset, y + self.yoffset)
    }

    fn get_pixel_mut(&mut self, x: u32, y: u32) -> (r: &mut I::Pixel) {
        self.image.get_pixel_mut(x + self.xoffset, y + self.yoffset)
    }

    fn put_pixel(&mut self, x: u32, y: u32, pixel: I::Pixel) {
        SubImage::put_pixel(self, x, y, pixel)
    }

    fn blend_pixel(&mut self, x: u32, y: u32, pixel: I::Pixel) {
        SubImage::blend_pixel(self, x, y, pixel)
    }
}

} // verus!
