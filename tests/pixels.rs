use image::{copy_from, FromColor, GenericImage, ImageBuffer, Luma, LumaA, Pixel, Rgb, Rgba};

#[test]
fn test_image_alpha_blending() {
    let mut target = ImageBuffer::new(1, 1);
    target.put_pixel(0, 0, Rgba([255u8, 0, 0, 255]));
    assert!(target.get_pixel(0, 0) == Rgba([255, 0, 0, 255]));
    target.blend_pixel(0, 0, Rgba([0, 255, 0, 255]));
    assert!(target.get_pixel(0, 0) == Rgba([0, 255, 0, 255]));

    // Blending an alpha channel onto a solid background
    target.blend_pixel(0, 0, Rgba([255, 0, 0, 127]));
    assert!(target.get_pixel(0, 0) == Rgba([127, 127, 0, 255]));

    // Blending two alpha channels
    target.put_pixel(0, 0, Rgba([0, 255, 0, 127]));
    target.blend_pixel(0, 0, Rgba([255, 0, 0, 127]));
    assert!(target.get_pixel(0, 0) == Rgba([169, 85, 0, 190]));
}

#[test]
fn test_in_bounds() {
    let mut target = ImageBuffer::new(2, 2);
    target.put_pixel(0, 0, Rgba([255u8, 0, 0, 255]));

    assert!(target.in_bounds(0, 0));
    assert!(target.in_bounds(1, 0));
    assert!(target.in_bounds(0, 1));
    assert!(target.in_bounds(1, 1));

    assert!(!target.in_bounds(2, 0));
    assert!(!target.in_bounds(0, 2));
    assert!(!target.in_bounds(2, 2));
}

#[test]
fn channel_counts_match_layouts() {
    assert_eq!(Luma::<u8>::channel_count(), 1);
    assert_eq!(LumaA::<u8>::channel_count(), 2);
    assert_eq!(Rgb::<u16>::channel_count(), 3);
    assert_eq!(Rgba::<u8>::channel_count(), 4);
    assert_eq!(Rgb::<u8>::color_model(), "RGB");
    assert_eq!(LumaA::<u8>::color_model(), "YA");
    assert_eq!(Rgba::<u8>::color_type(), image::ColorType::RGBA(8));
    assert_eq!(Rgba::<u16>::color_type(), image::ColorType::RGBA(16));
    assert_eq!(Luma::<u8>::color_type(), image::ColorType::Gray(8));
}

#[test]
fn from_slice_takes_samples_in_order() {
    let p = Rgb::<u8>::from_slice(&[1, 2, 3]);
    assert_eq!(p.channels(), &[1u8, 2, 3][..]);
    let q = LumaA::<u8>::try_from_slice(&[9, 8]).unwrap();
    assert_eq!(q.channels(), &[9u8, 8][..]);
}

#[test]
fn try_from_slice_rejects_wrong_lengths() {
    assert!(Rgba::<u8>::try_from_slice(&[1, 2, 3]).is_none());
    assert!(Rgba::<u16>::try_from_slice(&[1, 2, 3, 4, 5]).is_none());
    assert!(Luma::<u8>::try_from_slice(&[]).is_none());
}

#[test]
fn from_channels_uses_leading_samples() {
    let p = Rgb::<u8>::from_channels(4, 5, 6, 7);
    assert!(p == Rgb([4, 5, 6]));
    let l = Luma::<u8>::from_channels(4, 5, 6, 7);
    assert!(l == Luma([4]));
}

#[test]
fn blend_without_alpha_replaces() {
    let mut p = Rgb([1u8, 2, 3]);
    p.blend(&Rgb([7, 8, 9]));
    assert!(p == Rgb([7, 8, 9]));
}

#[test]
fn blend_luma_alpha_half_over_opaque() {
    let mut p = LumaA([0u8, 255]);
    p.blend(&LumaA([255, 127]));
    assert!(p == LumaA([127, 255]));
}

#[test]
fn blend_transparent_over_transparent_keeps_pixel() {
    let mut p = Rgba([10u8, 20, 30, 0]);
    p.blend(&Rgba([200, 100, 50, 0]));
    assert!(p == Rgba([10, 20, 30, 0]));
}

fn numbered(w: u32, h: u32) -> ImageBuffer<Luma<u8>> {
    let mut img = ImageBuffer::new(w, h);
    for y in 0..h {
        for x in 0..w {
            img.put_pixel(x, y, Luma([(y * w + x) as u8]));
        }
    }
    img
}

#[test]
fn new_buffer_is_zero() {
    let img: ImageBuffer<Rgba<u8>> = ImageBuffer::new(3, 2);
    assert_eq!(img.dimensions(), (3, 2));
    assert!(img.get_pixel(2, 1) == Rgba([0, 0, 0, 0]));
}

#[test]
fn copy_from_places_other_at_offset() {
    let mut dst: ImageBuffer<Luma<u8>> = ImageBuffer::new(4, 4);
    let src = numbered(2, 2);
    assert!(copy_from(&mut dst, &src, 1, 2));
    assert!(dst.get_pixel(1, 2) == Luma([0]));
    assert!(dst.get_pixel(2, 2) == Luma([1]));
    assert!(dst.get_pixel(1, 3) == Luma([2]));
    assert!(dst.get_pixel(2, 3) == Luma([3]));
    assert!(dst.get_pixel(0, 0) == Luma([0]));
    assert!(dst.get_pixel(3, 3) == Luma([0]));
}

#[test]
fn copy_from_too_large_leaves_destination() {
    let mut dst = numbered(3, 3);
    let before = dst.clone().into_raw();
    let src: ImageBuffer<Luma<u8>> = ImageBuffer::new(2, 2);
    assert!(!copy_from(&mut dst, &src, 2, 0));
    assert!(!copy_from(&mut dst, &src, 0, 2));
    assert!(!copy_from(&mut dst, &src, u32::MAX, 0));
    assert_eq!(dst.into_raw(), before);
}

#[test]
fn sub_image_to_image_copies_region() {
    let mut img = numbered(4, 3);
    let sub = img.sub_image(1, 1, 2, 2);
    assert_eq!(sub.bounds(), (1, 1, 2, 2));
    let out = sub.to_image();
    assert_eq!(out.dimensions(), (2, 2));
    assert!(out.get_pixel(0, 0) == Luma([5]));
    assert!(out.get_pixel(1, 0) == Luma([6]));
    assert!(out.get_pixel(0, 1) == Luma([9]));
    assert!(out.get_pixel(1, 1) == Luma([10]));
}

#[test]
fn sub_image_writes_reach_parent() {
    let mut img = numbered(3, 3);
    {
        let mut sub = img.sub_image(1, 1, 2, 2);
        sub.put_pixel(1, 1, Luma([99]));
        assert!(sub.get_pixel(1, 1) == Luma([99]));
        sub.change_bounds(0, 0, 1, 1);
        assert!(sub.get_pixel(0, 0) == Luma([0]));
        sub.inner_mut().put_pixel(0, 2, Luma([77]));
    }
    assert!(img.get_pixel(2, 2) == Luma([99]));
    assert!(img.get_pixel(0, 2) == Luma([77]));
}

#[test]
fn sub_image_in_bounds_uses_parent_coordinates() {
    let mut img = numbered(4, 4);
    let sub = img.sub_image(1, 1, 2, 2);
    assert!(sub.in_bounds(1, 1));
    assert!(sub.in_bounds(2, 2));
    assert!(!sub.in_bounds(0, 1));
    assert!(!sub.in_bounds(3, 1));
}

#[test]
fn pixels_visit_rows_in_order() {
    let img = numbered(2, 2);
    let mut it = img.pixels();
    let mut seen = Vec::new();
    while let Some((x, y, p)) = it.next() {
        seen.push((x, y, p.data[0]));
    }
    assert_eq!(seen, vec![(0, 0, 0), (1, 0, 1), (0, 1, 2), (1, 1, 3)]);
    assert!(it.next().is_none());
}

#[test]
fn pixels_of_empty_image() {
    let img: ImageBuffer<Luma<u8>> = ImageBuffer::new(0, 3);
    let mut it = img.pixels();
    assert!(it.next().is_none());
    assert!(it.next().is_none());
}

#[test]
fn pixels_mut_replaces_each_pixel() {
    let mut img = numbered(2, 2);
    {
        let mut it = img.pixels_mut();
        while let Some((_, _, p)) = it.next() {
            it.put_last(Luma([p.data[0] + 10]));
        }
    }
    assert_eq!(img.into_raw(), vec![10, 11, 12, 13]);
}

#[test]
fn from_raw_needs_exact_samples() {
    let img: Option<ImageBuffer<Rgb<u8>>> = ImageBuffer::from_raw(2, 1, &[1, 2, 3, 4, 5]);
    assert!(img.is_none());
    let img: Option<ImageBuffer<Rgb<u8>>> = ImageBuffer::from_raw(2, 1, &[1, 2, 3, 4, 5, 6, 7]);
    assert!(img.is_none());
    let img: ImageBuffer<Rgb<u8>> = ImageBuffer::from_raw(2, 1, &[1, 2, 3, 4, 5, 6]).unwrap();
    assert!(img.get_pixel(1, 0) == Rgb([4, 5, 6]));
    assert_eq!(img.into_raw(), vec![1, 2, 3, 4, 5, 6]);
}

#[test]
fn from_color_copies_same_layout() {
    let mut p = Rgb([0u8, 0, 0]);
    p.from_color(&Rgb([3, 4, 5]));
    assert!(p == Rgb([3, 4, 5]));
}

#[test]
fn blend_sixteen_bit_samples() {
    let mut p = Rgba([0u16, 65535, 0, 65535]);
    p.blend(&Rgba([65535, 0, 0, 65535]));
    assert!(p == Rgba([65535, 0, 0, 65535]));
    let mut q = LumaA([0u16, 65535]);
    q.blend(&LumaA([65535, 0]));
    assert!(q == LumaA([0, 65535]));
}

#[test]
fn sixteen_bit_buffer_round_trip() {
    let img: ImageBuffer<Rgb<u16>> = ImageBuffer::from_raw(1, 2, &[1, 2, 3, 400, 500, 600]).unwrap();
    assert!(img.get_pixel(0, 1) == Rgb([400, 500, 600]));
    assert_eq!(img.into_raw(), vec![1u16, 2, 3, 400, 500, 600]);
}

#[test]
fn blending_through_a_view_reaches_the_parent() {
    let cases = [
        (Rgba([0u8, 255, 0, 255]), Rgba([255u8, 0, 0, 255]), Rgba([255u8, 0, 0, 255])),
        (Rgba([0, 255, 0, 255]), Rgba([255, 0, 0, 127]), Rgba([127, 127, 0, 255])),
        (Rgba([0, 255, 0, 127]), Rgba([255, 0, 0, 127]), Rgba([169, 85, 0, 190])),
    ];
    for (bg, fg, want) in cases {
        let mut parent = ImageBuffer::new(1, 1);
        parent.put_pixel(0, 0, bg);
        {
            let mut sub = image::SubImage::new(&mut parent, 0, 0, 1, 1);
            sub.blend_pixel(0, 0, fg);
        }
        assert!(parent.get_pixel(0, 0) == want);
    }
}

#[test]
fn cursor_stays_finished() {
    let img = numbered(2, 1);
    let mut it = img.pixels();
    assert!(it.next().is_some());
    assert!(it.next().is_some());
    assert!(it.next().is_none());
    assert!(it.next().is_none());
    assert_eq!((it.x, it.y), (2, 0));
}
