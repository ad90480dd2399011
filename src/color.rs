//! Pixel layouts, color types and alpha compositing.

use vstd::prelude::*;

use crate::traits::Primitive;

verus! {

broadcast use vstd::array::group_array_axioms;

/// An enumeration over supported color types and their bit depths.
#[derive(Clone, Copy, PartialEq, Eq, Debug, Structural)]
pub enum ColorType {
    /// Pixel is grayscale
    Gray(u8),
    /// Pixel contains R, G and B channels
    RGB(u8),
    /// Pixel is an index into a color palette
    Palette(u8),
    /// Pixel is grayscale with an alpha channel
    GrayA(u8),
    /// Pixel is RGB with an alpha channel
    RGBA(u8),
}

/// One in the fixed-point scale used for compositing (16 fractional bits).
pub const FIXED_ONE: u64 = 65536;

/// A sample of a range up to `max` mapped onto the fixed-point scale,
/// rounded up.
pub open spec fn spec_norm(v: nat, max: nat) -> int {
    (v * 65536 + max - 1) / (max as int)
}

/// Fixed-point product, rounded down.
pub open spec fn spec_fmul(a: int, b: int) -> int {
    (a * b) / 65536
}

/// A fixed-point value mapped back onto the sample range up to `max`,
/// rounded down and clamped to it.
pub open spec fn spec_quantize(v: int, max: nat) -> nat {
    let q = (max * v) / 65536;
    if q > max {
        max
    } else if q < 0 {
        0
    } else {
        q as nat
    }
}

/// Fixed-point alpha of `fg` composited over `bg`: `a_bg + a_fg - a_bg * a_fg`.
pub open spec fn spec_over_alpha(bg_a: nat, fg_a: nat, max: nat) -> int {
    spec_norm(bg_a, max) + spec_norm(fg_a, max) - spec_fmul(spec_norm(bg_a, max), spec_norm(fg_a, max))
}

/// One color channel of `fg` composited over `bg`:
/// `(c_fg * a_fg + c_bg * a_bg * (1 - a_fg)) / a_out`.
pub open spec fn spec_over_channel(bg_c: nat, bg_a: nat, fg_c: nat, fg_a: nat, max: nat) -> nat {
    let fa = spec_norm(fg_a, max);
    let premul = spec_fmul(spec_norm(fg_c, max), fa) + spec_fmul(
        spec_fmul(spec_norm(bg_c, max), spec_norm(bg_a, max)),
        65536 - fa,
    );
    spec_quantize((premul * 65536) / spec_over_alpha(bg_a, fg_a, max), max)
}

fn norm<T: Primitive>(v: T) -> (r: u64)
    ensures
        r == spec_norm(v.spec_value(), T::spec_max()),
        r <= FIXED_ONE,
{
    let m = T::max_value();
    let x = v.to_u64();
    proof {
        T::lemma_range(v);
        T::lemma_max();
        assert((x * 65536 + m - 1) / (m as int) <= 65536) by (nonlinear_arith)
            requires
                x <= m,
                1 <= m,
        ;
    }
    (x * FIXED_ONE + m - 1) / m
}

fn fmul(a: u64, b: u64) -> (r: u64)
    requires
        a <= FIXED_ONE,
        b <= FIXED_ONE,
    ensures
        r == spec_fmul(a as int, b as int),
        r <= a,
        r <= b,
{
    proof {
        assert(a * b <= FIXED_ONE * FIXED_ONE) by (nonlinear_arith)
            requires
                a <= FIXED_ONE,
                b <= FIXED_ONE,
        ;
        assert((a * b) / 65536 <= a) by (nonlinear_arith)
            requires
                b <= 65536,
        ;
        assert((a * b) / 65536 <= b) by (nonlinear_arith)
            requires
                a <= 65536,
        ;
    }
    (a * b) / FIXED_ONE
}

fn quantize<T: Primitive>(v: u64) -> (r: T)
    requires
        v <= 4 * FIXED_ONE * FIXED_ONE,
    ensures
        r == T::spec_from(spec_quantize(v as int, T::spec_max())),
{
    let m = T::max_value();
    proof {
        T::lemma_max();
        assert(m * v <= 65535 * (4 * FIXED_ONE * FIXED_ONE)) by (nonlinear_arith)
            requires
                m <= 65535,
                v <= 4 * FIXED_ONE * FIXED_ONE,
        ;
    }
    let q = (m * v) / FIXED_ONE;
    if q > m {
        T::from_u64(m)
    } else {
        T::from_u64(q)
    }
}

fn over_alpha<T: Primitive>(bg_a: T, fg_a: T) -> (r: u64)
    ensures
        r == spec_over_alpha(bg_a.spec_value(), fg_a.spec_value(), T::spec_max()),
        r <= 2 * FIXED_ONE,
{
    let b = norm(bg_a);
    let f = norm(fg_a);
    b + f - fmul(b, f)
}

/// One color channel of `fg` composited over `bg`, given their alpha
/// composited by `over_alpha`, which is not zero.
fn over_channel<T: Primitive>(bg_c: T, bg_a: T, fg_c: T, fg_a: T, alpha: u64) -> (r: T)
    requires
        alpha == spec_over_alpha(bg_a.spec_value(), fg_a.spec_value(), T::spec_max()),
        alpha > 0,
    ensures
        r == T::spec_from(
            spec_over_channel(
                bg_c.spec_value(),
                bg_a.spec_value(),
                fg_c.spec_value(),
                fg_a.spec_value(),
                T::spec_max(),
            ),
        ),
{
    let fa = norm(fg_a);
    let premul = fmul(norm(fg_c), fa) + fmul(fmul(norm(bg_c), norm(bg_a)), FIXED_ONE - fa);
    proof {
        assert(premul * 65536 <= 2 * FIXED_ONE * FIXED_ONE) by (nonlinear_arith)
            requires
                premul <= 2 * FIXED_ONE,
        ;
        assert((premul as int * 65536) / (alpha as int) <= premul as int * 65536)
            by (nonlinear_arith)
            requires
                alpha >= 1,
                premul >= 0,
        ;
    }
    quantize((premul * FIXED_ONE) / alpha)
}

/// A pixel: a fixed number of ordered samples with a color model.
pub trait Pixel: Copy + Sized {
    /// The type of each sample.
    type Subpixel: Primitive;

    /// The samples of this pixel, in order.
    spec fn spec_channels(&self) -> Seq<Self::Subpixel>;

    /// The number of samples of each pixel of this layout.
    spec fn spec_channel_count() -> nat;

    /// The color type of this layout.
    spec fn spec_color_type() -> ColorType;

    /// The name of the color model of this layout.
    spec fn spec_color_model() -> Seq<char>;

    /// `fg` composited over `self`.
    spec fn spec_blend(self, fg: Self) -> Self;

    /// A pixel holds exactly as many samples as its layout has channels.
    proof fn lemma_channels_len(p: Self)
        ensures
            p.spec_channels().len() == Self::spec_channel_count(),
    ;

    /// A pixel is determined by its samples.
    proof fn lemma_channels_determine(p: Self, q: Self)
        ensures
            p.spec_channels() == q.spec_channels() ==> p == q,
    ;

    /// The number of channels of this layout.
    fn channel_count() -> (r: u8)
        ensures
            r as nat == Self::spec_channel_count(),
            1 <= r <= 4,
    ;

    /// The name of the color model of this layout.
    fn color_model() -> (r: &'static str)
        ensures
            r@ == Self::spec_color_model(),
    ;

    /// The color type of this layout: its kind and the width of a sample.
    fn color_type() -> (r: ColorType)
        ensures
            r == Self::spec_color_type(),
    ;

    /// The samples of this pixel.
    fn channels(&self) -> (r: &[Self::Subpixel])
        ensures
            r@ == self.spec_channels(),
    ;

    /// Builds a pixel from the first `channel_count()` of the four samples.
    fn from_channels(
        a: Self::Subpixel,
        b: Self::Subpixel,
        c: Self::Subpixel,
        d: Self::Subpixel,
    ) -> (r: Self)
        ensures
            r.spec_channels() == seq![a, b, c, d].take(Self::spec_channel_count() as int),
    ;

    /// The pixel whose samples are those of `slice`, which must hold exactly
    /// `channel_count()` samples.
    fn from_slice(slice: &[Self::Subpixel]) -> (r: Self)
        requires
            slice@.len() == Self::spec_channel_count(),
        ensures
            r.spec_channels() == slice@,
    ;

    /// Composites `other` over this pixel.
    fn blend(&mut self, other: &Self)
        ensures
            *final(self) == old(self).spec_blend(*other),
    ;

    /// The pixel whose samples are those of `slice`, or `None` when the
    /// length of `slice` is not `channel_count()`.
    fn try_from_slice(slice: &[Self::Subpixel]) -> (r: Option<Self>)
        ensures
            r is None <==> slice@.len() != Self::spec_channel_count(),
            r matches Some(p) ==> p.spec_channels() == slice@,
    {
        if slice.len() == Self::channel_count() as usize {
            Some(Self::from_slice(slice))
        } else {
            None
        }
    }
}

/// Grayscale colors.
#[derive(Clone, Copy, Debug)]
pub struct Luma<T: Primitive> {
    /// The samples, in channel order.
    pub data: [T; 1],
}

/// Builds a pixel of this layout from its samples.
#[allow(non_snake_case)]
pub fn Luma<T: Primitive>(data: [T; 1]) -> (r: Luma<T>)
    ensures
        r.data == data,
{
    Luma { data }
}

impl<T: Primitive> PartialEq for Luma<T> {
    fn eq(&self, o: &Luma<T>) -> (r: bool) {
        let r = self.data[0].to_u64() == o.data[0].to_u64();
        proof {
            if r {
                T::lemma_injective(self.data[0], o.data[0]);
                assert(self.data@ =~= o.data@);
            }
        }
        r
    }
}

impl<T: Primitive> vstd::std_specs::cmp::PartialEqSpecImpl for Luma<T> {
    open spec fn obeys_eq_spec() -> bool {
        true
    }

    open spec fn eq_spec(&self, o: &Luma<T>) -> bool {
        self.data@ == o.data@
    }
}

impl<T: Primitive> Pixel for Luma<T> {
    type Subpixel = T;

    open spec fn spec_channels(&self) -> Seq<T> {
        self.data@
    }

    open spec fn spec_channel_count() -> nat {
        1
    }

    open spec fn spec_color_type() -> ColorType {
        ColorType::Gray(T::spec_bits())
    }

    open spec fn spec_color_model() -> Seq<char> {
        "Y"@
    }

    open spec fn spec_blend(self, fg: Self) -> Self {
        fg
    }

    proof fn lemma_channels_len(p: Self) {
    }

    proof fn lemma_channels_determine(p: Self, q: Self) {
        if p.data@ == q.data@ {
            assert(p.data =~= q.data);
        }
    }

    fn channel_count() -> (r: u8) {
        1
    }

    fn color_model() -> (r: &'static str) {
        "Y"
    }

    fn color_type() -> (r: ColorType) {
        ColorType::Gray(T::bits())
    }

    fn channels(&self) -> (r: &[T]) {
        self.data.as_slice()
    }

    fn from_channels(a: T, b: T, c: T, d: T) -> (r: Self) {
        let r = Luma { data: [a] };
        assert(r.data@ =~= seq![a, b, c, d].take(1));
        r
    }

    fn from_slice(slice: &[T]) -> (r: Self) {
        let r = Luma { data: [slice[0]] };
        assert(r.data@ =~= slice@);
        r
    }

    fn blend(&mut self, other: &Self) {
        *self = *other;
    }
}

/// Grayscale colors with an alpha channel.
#[derive(Clone, Copy, Debug)]
pub struct LumaA<T: Primitive> {
    /// The samples, in channel order.
    pub data: [T; 2],
}

/// Builds a pixel of this layout from its samples.
#[allow(non_snake_case)]
pub fn LumaA<T: Primitive>(data: [T; 2]) -> (r: LumaA<T>)
    ensures
        r.data == data,
{
    LumaA { data }
}

impl<T: Primitive> PartialEq for LumaA<T> {
    fn eq(&self, o: &LumaA<T>) -> (r: bool) {
        let r = self.data[0].to_u64() == o.data[0].to_u64() && self.data[1].to_u64() == o.data[1].to_u64();
        proof {
            if r {
                T::lemma_injective(self.data[0], o.data[0]);
                T::lemma_injective(self.data[1], o.data[1]);
                assert(self.data@ =~= o.data@);
            }
        }
        r
    }
}

impl<T: Primitive> vstd::std_specs::cmp::PartialEqSpecImpl for LumaA<T> {
    open spec fn obeys_eq_spec() -> bool {
        true
    }

    open spec fn eq_spec(&self, o: &LumaA<T>) -> bool {
        self.data@ == o.data@
    }
}

impl<T: Primitive> Pixel for LumaA<T> {
    type Subpixel = T;

    open spec fn spec_channels(&self) -> Seq<T> {
        self.data@
    }

    open spec fn spec_channel_count() -> nat {
        2
    }

    open spec fn spec_color_type() -> ColorType {
        ColorType::GrayA(T::spec_bits())
    }

    open spec fn spec_color_model() -> Seq<char> {
        "YA"@
    }

    open spec fn spec_blend(self, fg: Self) -> Self {
        if spec_over_alpha(self.data[1].spec_value(), fg.data[1].spec_value(), T::spec_max()) == 0 {
            self
        } else {
            LumaA {
                data: [
                    T::spec_from(spec_over_channel(self.data[0].spec_value(), self.data[1].spec_value(), fg.data[0].spec_value(), fg.data[1].spec_value(), T::spec_max())),
                    T::spec_from(spec_quantize(spec_over_alpha(self.data[1].spec_value(), fg.data[1].spec_value(), T::spec_max()), T::spec_max())),
                ],
            }
        }
    }

    proof fn lemma_channels_len(p: Self) {
    }

    proof fn lemma_channels_determine(p: Self, q: Self) {
        if p.data@ == q.data@ {
            assert(p.data =~= q.data);
        }
    }

    fn channel_count() -> (r: u8) {
        2
    }

    fn color_model() -> (r: &'static str) {
        "YA"
    }

    fn color_type() -> (r: ColorType) {
        ColorType::GrayA(T::bits())
    }

    fn channels(&self) -> (r: &[T]) {
        self.data.as_slice()
    }

    fn from_channels(a: T, b: T, c: T, d: T) -> (r: Self) {
        let r = LumaA { data: [a, b] };
        assert(r.data@ =~= seq![a, b, c, d].take(2));
        r
    }

    fn from_slice(slice: &[T]) -> (r: Self) {
        let r = LumaA { data: [slice[0], slice[1]] };
        assert(r.data@ =~= slice@);
        r
    }

    fn blend(&mut self, other: &Self) {
        let alpha = over_alpha(self.data[1], other.data[1]);
        if alpha == 0 {
            return;
        }
        let c0 = over_channel(self.data[0], self.data[1], other.data[0], other.data[1], alpha);
        self.data = [c0, quantize(alpha)];
    }
}

/// RGB colors.
#[derive(Clone, Copy, Debug)]
pub struct Rgb<T: Primitive> {
    /// The samples, in channel order.
    pub data: [T; 3],
}

/// Builds a pixel of this layout from its samples.
#[allow(non_snake_case)]
pub fn Rgb<T: Primitive>(data: [T; 3]) -> (r: Rgb<T>)
    ensures
        r.data == data,
{
    Rgb { data }
}

impl<T: Primitive> PartialEq for Rgb<T> {
    fn eq(&self, o: &Rgb<T>) -> (r: bool) {
        let r = self.data[0].to_u64() == o.data[0].to_u64() && self.data[1].to_u64() == o.data[1].to_u64() && self.data[2].to_u64() == o.data[2].to_u64();
        proof {
            if r {
                T::lemma_injective(self.data[0], o.data[0]);
                T::lemma_injective(self.data[1], o.data[1]);
                T::lemma_injective(self.data[2], o.data[2]);
                assert(self.data@ =~= o.data@);
            }
        }
        r
    }
}

impl<T: Primitive> vstd::std_specs::cmp::PartialEqSpecImpl for Rgb<T> {
    open spec fn obeys_eq_spec() -> bool {
        true
    }

    open spec fn eq_spec(&self, o: &Rgb<T>) -> bool {
        self.data@ == o.data@
    }
}

impl<T: Primitive> Pixel for Rgb<T> {
    type Subpixel = T;

    open spec fn spec_channels(&self) -> Seq<T> {
        self.data@
    }

    open spec fn spec_channel_count() -> nat {
        3
    }

    open spec fn spec_color_type() -> ColorType {
        ColorType::RGB(T::spec_bits())
    }

    open spec fn spec_color_model() -> Seq<char> {
        "RGB"@
    }

    open spec fn spec_blend(self, fg: Self) -> Self {
        fg
    }

    proof fn lemma_channels_len(p: Self) {
    }

    proof fn lemma_channels_determine(p: Self, q: Self) {
        if p.data@ == q.data@ {
            assert(p.data =~= q.data);
        }
    }

    fn channel_count() -> (r: u8) {
        3
    }

    fn color_model() -> (r: &'static str) {
        "RGB"
    }

    fn color_type() -> (r: ColorType) {
        ColorType::RGB(T::bits())
    }

    fn channels(&self) -> (r: &[T]) {
        self.data.as_slice()
    }

    fn from_channels(a: T, b: T, c: T, d: T) -> (r: Self) {
        let r = Rgb { data: [a, b, c] };
        assert(r.data@ =~= seq![a, b, c, d].take(3));
        r
    }

    fn from_slice(slice: &[T]) -> (r: Self) {
        let r = Rgb { data: [slice[0], slice[1], slice[2]] };
        assert(r.data@ =~= slice@);
        r
    }

    fn blend(&mut self, other: &Self) {
        *self = *other;
    }
}

/// RGB colors with an alpha channel.
#[derive(Clone, Copy, Debug)]
pub struct Rgba<T: Primitive> {
    /// The samples, in channel order.
    pub data: [T; 4],
}

/// Builds a pixel of this layout from its samples.
#[allow(non_snake_case)]
pub fn Rgba<T: Primitive>(data: [T; 4]) -> (r: Rgba<T>)
    ensures
        r.data == data,
{
    Rgba { data }
}

impl<T: Primitive> PartialEq for Rgba<T> {
    fn eq(&self, o: &Rgba<T>) -> (r: bool) {
        let r = self.data[0].to_u64() == o.data[0].to_u64() && self.data[1].to_u64() == o.data[1].to_u64() && self.data[2].to_u64() == o.data[2].to_u64() && self.data[3].to_u64() == o.data[3].to_u64();
        proof {
            if r {
                T::lemma_injective(self.data[0], o.data[0]);
                T::lemma_injective(self.data[1], o.data[1]);
                T::lemma_injective(self.data[2], o.data[2]);
                T::lemma_injective(self.data[3], o.data[3]);
                assert(self.data@ =~= o.data@);
            }
        }
        r
    }
}

impl<T: Primitive> vstd::std_specs::cmp::PartialEqSpecImpl for Rgba<T> {
    open spec fn obeys_eq_spec() -> bool {
        true
    }

    open spec fn eq_spec(&self, o: &Rgba<T>) -> bool {
        self.data@ == o.data@
    }
}

impl<T: Primitive> Pixel for Rgba<T> {
    type Subpixel = T;

    open spec fn spec_channels(&self) -> Seq<T> {
        self.data@
    }

    open spec fn spec_channel_count() -> nat {
        4
    }

    open spec fn spec_color_type() -> ColorType {
        ColorType::RGBA(T::spec_bits())
    }

    open spec fn spec_color_model() -> Seq<char> {
        "RGBA"@
    }

    open spec fn spec_blend(self, fg: Self) -> Self {
        if spec_over_alpha(self.data[3].spec_value(), fg.data[3].spec_value(), T::spec_max()) == 0 {
            self
        } else {
            Rgba {
                data: [
                    T::spec_from(spec_over_channel(self.data[0].spec_value(), self.data[3].spec_value(), fg.data[0].spec_value(), fg.data[3].spec_value(), T::spec_max())),
                    T::spec_from(spec_over_channel(self.data[1].spec_value(), self.data[3].spec_value(), fg.data[1].spec_value(), fg.data[3].spec_value(), T::spec_max())),
                    T::spec_from(spec_over_channel(self.data[2].spec_value(), self.data[3].spec_value(), fg.data[2].spec_value(), fg.data[3].spec_value(), T::spec_max())),
                    T::spec_from(spec_quantize(spec_over_alpha(self.data[3].spec_value(), fg.data[3].spec_value(), T::spec_max()), T::spec_max())),
                ],
            }
        }
    }

    proof fn lemma_channels_len(p: Self) {
    }

    proof fn lemma_channels_determine(p: Self, q: Self) {
        if p.data@ == q.data@ {
            assert(p.data =~= q.data);
        }
    }

    fn channel_count() -> (r: u8) {
        4
    }

    fn color_model() -> (r: &'static str) {
        "RGBA"
    }

    fn color_type() -> (r: ColorType) {
        ColorType::RGBA(T::bits())
    }

    fn channels(&self) -> (r: &[T]) {
        self.data.as_slice()
    }

    fn from_channels(a: T, b: T, c: T, d: T) -> (r: Self) {
        let r = Rgba { data: [a, b, c, d] };
        assert(r.data@ =~= seq![a, b, c, d].take(4));
        r
    }

    fn from_slice(slice: &[T]) -> (r: Self) {
        let r = Rgba { data: [slice[0], slice[1], slice[2], slice[3]] };
        assert(r.data@ =~= slice@);
        r
    }

    fn blend(&mut self, other: &Self) {
        let alpha = over_alpha(self.data[3], other.data[3]);
        if alpha == 0 {
            return;
        }
        let c0 = over_channel(self.data[0], self.data[3], other.data[0], other.data[3], alpha);
        let c1 = over_channel(self.data[1], self.data[3], other.data[1], other.data[3], alpha);
        let c2 = over_channel(self.data[2], self.data[3], other.data[2], other.data[3], alpha);
        self.data = [c0, c1, c2, quantize(alpha)];
    }
}

/// Mapping a sample onto the fixed-point scale and back gives the sample.
pub proof fn lemma_norm_round_trip(v: nat, max: nat)
    requires
        v <= max,
        1 <= max <= 65535,
    ensures
        spec_quantize(spec_norm(v, max), max) == v,
{
    let q = spec_norm(v, max);
    assert(q * max >= v * 65536 && q * max <= v * 65536 + max - 1) by (nonlinear_arith)
        requires
            q == (v * 65536 + max - 1) / (max as int),
            max >= 1,
    ;
    assert((max * q) / 65536 == v) by (nonlinear_arith)
        requires
            q * max >= v * 65536,
            q * max <= v * 65536 + max - 1,
            max <= 65535,
    ;
    assert(q <= 65536) by (nonlinear_arith)
        requires
            q * max <= v * 65536 + max - 1,
            v <= max,
            max >= 1,
    ;
}

/// An opaque source composited over any pixel gives the source: each color
/// channel and the alpha come out as the source has them.
pub proof fn lemma_opaque_over(bg_c: nat, bg_a: nat, fg_c: nat, max: nat)
    requires
        bg_c <= max,
        bg_a <= max,
        fg_c <= max,
        1 <= max <= 65535,
    ensures
        spec_over_alpha(bg_a, max, max) == 65536,
        spec_over_channel(bg_c, bg_a, fg_c, max, max) == fg_c,
        spec_quantize(spec_over_alpha(bg_a, max, max), max) == max,
{
    assert(spec_norm(max, max) == 65536) by (nonlinear_arith)
        requires
            1 <= max,
    ;
    let b = spec_norm(bg_a, max);
    let c = spec_norm(fg_c, max);
    assert(0 <= b <= 65536 && 0 <= c <= 65536) by (nonlinear_arith)
        requires
            b == (bg_a * 65536 + max - 1) / (max as int),
            c == (fg_c * 65536 + max - 1) / (max as int),
            bg_a <= max,
            fg_c <= max,
            max >= 1,
    ;
    assert(spec_fmul(b, 65536) == b) by (nonlinear_arith);
    assert(spec_fmul(c, 65536) == c) by (nonlinear_arith);
    let bb = spec_fmul(spec_norm(bg_c, max), b);
    assert(spec_fmul(bb, 0) == 0) by (nonlinear_arith);
    assert((c * 65536) / 65536 == c) by (nonlinear_arith);
    lemma_norm_round_trip(fg_c, max);
    lemma_norm_round_trip(max, max);
}

/// An opaque RGBA source composited over any RGBA pixel gives the source.
pub proof fn lemma_opaque_rgba_over<T: Primitive>(bg: Rgba<T>, fg: Rgba<T>)
    requires
        fg.data[3].spec_value() == T::spec_max(),
    ensures
        bg.spec_blend(fg) == fg,
{
    T::lemma_max();
    let max = T::spec_max();
    T::lemma_range(bg.data[0]);
    T::lemma_range(bg.data[1]);
    T::lemma_range(bg.data[2]);
    T::lemma_range(bg.data[3]);
    T::lemma_range(fg.data[0]);
    T::lemma_range(fg.data[1]);
    T::lemma_range(fg.data[2]);
    let a = bg.data[3].spec_value();
    lemma_opaque_over(bg.data[0].spec_value(), a, fg.data[0].spec_value(), max);
    lemma_opaque_over(bg.data[1].spec_value(), a, fg.data[1].spec_value(), max);
    lemma_opaque_over(bg.data[2].spec_value(), a, fg.data[2].spec_value(), max);
    let r = bg.spec_blend(fg);
    assert forall|i: int| 0 <= i < 4 implies r.data[i] == fg.data[i] by {
        T::lemma_from(fg.data[i].spec_value());
        T::lemma_injective(T::spec_from(fg.data[i].spec_value()), fg.data[i]);
    }
    assert(r.data =~= fg.data);
}

/// Each layout has as many channels as its name says: one for luma, two for
/// luma with alpha, three for RGB, four for RGB with alpha.
pub proof fn lemma_channel_counts<T: Primitive>()
    ensures
        Luma::<T>::spec_channel_count() == 1,
        LumaA::<T>::spec_channel_count() == 2,
        Rgb::<T>::spec_channel_count() == 3,
        Rgba::<T>::spec_channel_count() == 4,
{
}

/// Provides color conversions for the different pixel types.
pub trait FromColor<Other>: Sized {
    /// The value that `other` takes in the color space of `Self`.
    spec fn spec_from_color(other: Other) -> Self;

    /// Changes `self` to represent `other` in the color space of `Self`.
    fn from_color(&mut self, other: &Other)
        ensures
            *final(self) == Self::spec_from_color(*other),
    ;
}

impl<A: Copy> FromColor<A> for A {
    open spec fn spec_from_color(other: A) -> A {
        other
    }

    fn from_color(&mut self, other: &A) {
        *self = *other;
    }
}

} // verus!
