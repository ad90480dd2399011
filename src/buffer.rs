//! An owned image: width, height and its pixels in row-major order.

use vstd::prelude::*;

use crate::color::{Luma, LumaA, Pixel, Rgb, Rgba};
use crate::traits::Primitive;
use crate::image::{spec_in_dims, GenericImage};

verus! {

/// Distinct coordinates inside a row of width `w` have distinct row-major
/// indices, and each index stays below `w * h`.
proof fn lemma_index(w: u32, h: u32, x: u32, y: u32, i: u32, j: u32)
    requires
        x < w,
        y < h,
        i < w,
    ensures
        0 <= y as int * w as int <= y as int * w as int + x < w as int * h as int,
        (j as int * w as int + i == y as int * w as int + x) ==> (i == x && j == y),
{
    assert(y as int * w as int + x < w as int * h as int) by (nonlinear_arith)
        requires
            x < w,
            y < h,
    ;
    assert((j as int * w as int + i == y as int * w as int + x) ==> (i == x && j == y))
        by (nonlinear_arith)
        requires
            x < w,
            i < w,
    ;
}

/// An owned buffer's bounding rectangle starts at the origin and spans its
/// dimensions.
pub proof fn lemma_buffer_bounds<P: Pixel>(img: &ImageBuffer<P>)
    ensures
        img.spec_bounds() == (0u32, 0u32, img.spec_dimensions().0, img.spec_dimensions().1),
{
}

/// The pixels of a well-formed buffer can be counted in a `usize`.
pub proof fn lemma_buffer_size<P: Pixel>(img: &ImageBuffer<P>)
    requires
        img.inv(),
    ensures
        img.spec_dimensions().0 as nat * img.spec_dimensions().1 as nat <= usize::MAX,
{
}

/// An image that owns its pixels.
#[derive(Clone, Debug)]
pub struct ImageBuffer<P: Pixel> {
    width: u32,
    height: u32,
    data: Vec<P>,
}

/// An image of 8-bit grayscale pixels.
pub type GrayImage = ImageBuffer<Luma<u8>>;

/// An image of 8-bit grayscale pixels with alpha.
pub type GrayAlphaImage = ImageBuffer<LumaA<u8>>;

/// An image of 8-bit RGB pixels.
pub type RgbImage = ImageBuffer<Rgb<u8>>;

/// An image of 8-bit RGB pixels with alpha.
pub type RgbaImage = ImageBuffer<Rgba<u8>>;

/// The pixel made of the `k`-th run of `n` samples of `buf`.
pub open spec fn spec_run<T>(buf: Seq<T>, n: nat, k: int) -> Seq<T> {
    buf.subrange(k * n, k * n + n)
}

impl<P: Pixel> ImageBuffer<P> {
    closed spec fn index(&self, x: u32, y: u32) -> int {
        y as int * self.width as int + x as int
    }

    /// The zero sample.
    pub open spec fn spec_zero() -> P::Subpixel {
        <P::Subpixel as Primitive>::spec_from(0)
    }

    /// Creates a buffer of the given size whose samples are all zero.
    pub fn new(width: u32, height: u32) -> (r: ImageBuffer<P>)
        requires
            width as nat * height as nat <= usize::MAX,
        ensures
            r.inv(),
            r.spec_dimensions() == (width, height),
            r.spec_bounds() == (0u32, 0u32, width, height),
            forall|x: u32, y: u32|
                x < width && y < height ==> (#[trigger] r.spec_pixel(x, y)).spec_channels()
                    == seq![Self::spec_zero(), Self::spec_zero(), Self::spec_zero(), Self::spec_zero()].take(
                    P::spec_channel_count() as int,
                ),
    {
        let n: usize = width as usize * height as usize;
        let z = <P::Subpixel as Primitive>::from_u64(0);
        let zero = P::from_channels(z, z, z, z);
        let mut data: Vec<P> = Vec::new();
        let mut k: usize = 0;
        while k < n
            invariant
                k <= n,
                data@.len() == k,
                forall|i: int| 0 <= i < k ==> #[trigger] data@[i] == zero,
            decreases n - k,
        {
            data.push(zero);
            k = k + 1;
        }
        let r = ImageBuffer { width, height, data };
        proof {
            assert forall|x: u32, y: u32| x < width && y < height implies (#[trigger] r.spec_pixel(
                x,
                y,
            )).spec_channels() == seq![z, z, z, z].take(P::spec_channel_count() as int) by {
                lemma_index(width, height, x, y, x, y);
            }
        }
        r
    }

    /// Creates a buffer from samples in row-major order, `channel_count()` to
    /// a pixel. Returns `None` unless `buf` holds exactly the samples that the
    /// image needs.
    pub fn from_raw(width: u32, height: u32, buf: &[P::Subpixel]) -> (r: Option<ImageBuffer<P>>)
        ensures
            r is None <==> buf@.len() != width as nat * height as nat * P::spec_channel_count(),
            r matches Some(img) ==> {
                &&& img.inv()
                &&& img.spec_dimensions() == (width, height)
                &&& img.spec_bounds() == (0u32, 0u32, width, height)
                &&& forall|x: u32, y: u32|
                    x < width && y < height ==> (#[trigger] img.spec_pixel(x, y)).spec_channels()
                        == spec_run(
                        buf@,
                        P::spec_channel_count(),
                        y as int * width as int + x as int,
                    )
            },
    {
        let n = P::channel_count() as u128;
        proof {
            assert(width as nat * height as nat <= 0xffff_ffff * 0xffff_ffff) by (nonlinear_arith);
        }
        let pixels = width as u128 * height as u128;
        proof {
            assert(pixels * n <= 4 * 0xffff_ffff * 0xffff_ffff) by (nonlinear_arith)
                requires
                    pixels <= 0xffff_ffff * 0xffff_ffff,
                    n <= 4,
            ;
        }
        if (buf.len() as u128) != pixels * n {
            return None;
        }
        proof {
            assert(pixels <= pixels * n) by (nonlinear_arith)
                requires
                    n >= 1,
            ;
        }
        let n = n as usize;
        let count = pixels as usize;
        let blen = buf.len();
        let mut data: Vec<P> = Vec::new();
        let mut k: usize = 0;
        while k < count
            invariant
                k <= count,
                count == width as nat * height as nat,
                n == P::spec_channel_count(),
                count * n <= blen,
                blen == buf@.len(),
                data@.len() == k,
                forall|i: int|
                    0 <= i < k ==> (#[trigger] data@[i]).spec_channels() == spec_run(buf@, n as nat, i),
            decreases count - k,
        {
            proof {
                assert(k * n + n <= count * n) by (nonlinear_arith)
                    requires
                        k < count,
                ;
                assert(k * n <= k * n + n);
            }
            let run = vstd::slice::slice_subrange(buf, k * n, k * n + n);
            data.push(P::from_slice(run));
            k = k + 1;
        }
        let img = ImageBuffer { width, height, data };
        proof {
            assert forall|x: u32, y: u32| x < width && y < height implies (#[trigger] img.spec_pixel(
                x,
                y,
            )).spec_channels() == spec_run(buf@, n as nat, y as int * width as int + x as int) by {
                lemma_index(width, height, x, y, x, y);
            }
        }
        Some(img)
    }

    /// The samples of every pixel, in row-major order.
    pub fn into_raw(self) -> (r: Vec<P::Subpixel>)
        requires
            self.inv(),
        ensures
            r@.len() == self.spec_dimensions().0 as nat * self.spec_dimensions().1 as nat
                * P::spec_channel_count(),
            forall|x: u32, y: u32|
                spec_in_dims(&self, x, y) ==> spec_run(
                    r@,
                    P::spec_channel_count(),
                    y as int * self.spec_dimensions().0 as int + x as int,
                ) == (#[trigger] self.spec_pixel(x, y)).spec_channels(),
    {
        let n = P::channel_count() as usize;
        let mut out: Vec<P::Subpixel> = Vec::new();
        let mut k: usize = 0;
        while k < self.data.len()
            invariant
                self.inv(),
                k <= self.data@.len(),
                n == P::spec_channel_count(),
                out@.len() == k * n,
                forall|i: int|
                    0 <= i < k ==> spec_run(out@, n as nat, i) == (#[trigger] self.data@[i]).spec_channels(),
            decreases self.data@.len() - k,
        {
            let p = self.data[k];
            let ch = p.channels();
            proof {
                P::lemma_channels_len(p);
            }
            let ghost prev = out@;
            let mut c: usize = 0;
            while c < n
                invariant
                    c <= n,
                    n == P::spec_channel_count(),
                    ch@ == p.spec_channels(),
                    ch@.len() == n,
                    out@.len() == k * n + c,
                    out@.subrange(0, k * n) == prev,
                    prev.len() == k * n,
                    out@.subrange(k * n, k * n + c) == ch@.subrange(0, c as int),
                decreases n - c,
            {
                out.push(ch[c]);
                c = c + 1;
                assert(out@.subrange(k * n, k * n + c) =~= ch@.subrange(0, c as int));
                assert(out@.subrange(0, k * n) =~= prev);
            }
            proof {
                assert(ch@.subrange(0, n as int) =~= ch@);
                assert((k + 1) * n == k * n + n) by (nonlinear_arith);
                assert forall|i: int| 0 <= i < k + 1 implies spec_run(out@, n as nat, i)
                    == (#[trigger] self.data@[i]).spec_channels() by {
                    if i < k {
                        assert(i * n + n <= k * n) by (nonlinear_arith)
                            requires
                                i < k,
                        ;
                        assert(spec_run(out@, n as nat, i) =~= spec_run(prev, n as nat, i));
                    }
                }
            }
            k = k + 1;
        }
        proof {
            assert(out@.len() == self.width as nat * self.height as nat * n) by (nonlinear_arith)
                requires
                    out@.len() == k * n,
                    k == self.width as nat * self.height as nat,
            ;
            assert forall|x: u32, y: u32| spec_in_dims(&self, x, y) implies spec_run(
                out@,
                n as nat,
                y as int * self.width as int + x as int,
            ) == (#[trigger] self.spec_pixel(x, y)).spec_channels() by {
                lemma_index(self.width, self.height, x, y, x, y);
            }
        }
        out
    }
}

impl<P: Pixel> GenericImage for ImageBuffer<P> {
    type Pixel = P;

    closed spec fn spec_dimensions(&self) -> (u32, u32) {
        (self.width, self.height)
    }

    closed spec fn spec_bounds(&self) -> (u32, u32, u32, u32) {
        (0, 0, self.width, self.height)
    }

    closed spec fn spec_pixel(&self, x: u32, y: u32) -> P {
        self.data@[self.index(x, y)]
    }

    closed spec fn inv(&self) -> bool {
        &&& self.data@.len() == self.width as nat * self.height as nat
        &&& self.width as nat * self.height as nat <= usize::MAX
    }

    fn dimensions(&self) -> (r: (u32, u32)) {
        (self.width, self.height)
    }

    fn bounds(&self) -> (r: (u32, u32, u32, u32)) {
        (0, 0, self.width, self.height)
    }

    fn get_pixel(&self, x: u32, y: u32) -> (r: P) {
        let len = self.data.len();
        proof {
            lemma_index(self.width, self.height, x, y, x, y);
            assert(y as int * self.width as int + x < len);
        }
        self.data[y as usize * self.width as usize + x as usize]
    }

    fn get_pixel_mut(&mut self, x: u32, y: u32) -> (r: &mut P) {
        let len = self.data.len();
        proof {
            lemma_index(self.width, self.height, x, y, x, y);
            assert(y as int * self.width as int + x < len);
        }
        let k = y as usize * self.width as usize + x as usize;
        proof {
            assert forall|i: u32, j: u32|
                i < self.width && j < self.height && !(i == x && j == y) implies #[trigger] self.index(
                i,
                j,
            ) != k && 0 <= self.index(i, j) < self.data@.len() by {
                lemma_index(self.width, self.height, i, j, x, y);
                lemma_index(self.width, self.height, x, y, i, j);
            }
        }
        &mut self.data[k]
    }

    fn put_pixel(&mut self, x: u32, y: u32, pixel: P) {
        let len = self.data.len();
        proof {
            lemma_index(self.width, self.height, x, y, x, y);
            assert(y as int * self.width as int + x < len);
        }
        let k = y as usize * self.width as usize + x as usize;
        self.data.set(k, pixel);
        proof {
            assert forall|i: u32, j: u32|
                i < (old(self)).spec_dimensions().0 && j < (old(self)).spec_dimensions().1 && !(i == x && j == y) implies #[trigger] self.spec_pixel(
                i,
                j,
            ) == old(self).spec_pixel(i, j) by {
                lemma_index(self.width, self.height, i, j, x, y);
                lemma_index(self.width, self.height, x, y, i, j);
            }
        }
    }

    fn blend_pixel(&mut self, x: u32, y: u32, pixel: P) {
        let len = self.data.len();
        proof {
            lemma_index(self.width, self.height, x, y, x, y);
            assert(y as int * self.width as int + x < len);
        }
        let k = y as usize * self.width as usize + x as usize;
        let mut p = self.data[k];
        p.blend(&pixel);
        self.data.set(k, p);
        proof {
            assert forall|i: u32, j: u32|
                i < (old(self)).spec_dimensions().0 && j < (old(self)).spec_dimensions().1 && !(i == x && j == y) implies #[trigger] self.spec_pixel(
                i,
                j,
            ) == old(self).spec_pixel(i, j) by {
                lemma_index(self.width, self.height, i, j, x, y);
                lemma_index(self.width, self.height, x, y, i, j);
            }
        }
    }
}

} // verus!
