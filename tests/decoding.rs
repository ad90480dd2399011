use image::tiff::ifd::{Tag, Type};
use image::tiff::stream::{decode_u16, decode_u32, ByteOrder};
use image::{
    decoder_to_image, guess_format, image_from_samples, load_from_memory,
    load_from_memory_with_format, ColorType, DecodingResult, DynamicImage, ImageDecoder,
    ImageError, ImageFormat, TIFFDecoder, WebpDecoder,
};

fn tiff_le(bits: &[u16]) -> Vec<u8> {
    let mut v = vec![0x49, 0x49, 0x2a, 0x00, 8, 0, 0, 0];
    v.extend_from_slice(&[3, 0]);
    v.extend_from_slice(&[0x00, 0x01, 3, 0, 1, 0, 0, 0, 2, 0, 0, 0]);
    v.extend_from_slice(&[0x01, 0x01, 3, 0, 1, 0, 0, 0, 3, 0, 0, 0]);
    let n = bits.len() as u8;
    if bits.len() <= 2 {
        let mut raw = [0u8; 4];
        for (i, b) in bits.iter().enumerate() {
            raw[2 * i] = (*b & 0xff) as u8;
            raw[2 * i + 1] = (*b >> 8) as u8;
        }
        v.extend_from_slice(&[0x02, 0x01, 3, 0, n, 0, 0, 0]);
        v.extend_from_slice(&raw);
        v.extend_from_slice(&[0, 0, 0, 0]);
    } else {
        // values stored after the directory
        let at = (8 + 2 + 3 * 12 + 4) as u8;
        v.extend_from_slice(&[0x02, 0x01, 3, 0, n, 0, 0, 0, at, 0, 0, 0]);
        v.extend_from_slice(&[0, 0, 0, 0]);
        for b in bits {
            v.push((*b & 0xff) as u8);
            v.push((*b >> 8) as u8);
        }
    }
    v
}

fn tiff_be_gray8() -> Vec<u8> {
    vec![
        0x4d, 0x4d, 0x00, 0x2a, 0, 0, 0, 8, //
        0, 2, //
        0x01, 0x00, 0, 3, 0, 0, 0, 1, 0, 4, 0, 0, //
        0x01, 0x01, 0, 4, 0, 0, 0, 1, 0, 0, 0, 5, //
        0, 0, 0, 0,
    ]
}

#[test]
fn guess_format_png() {
    let b = [0x89, 0x50, 0x4e, 0x47, 0x0d, 0x0a, 0x1a, 0x0a, 0, 1, 2];
    assert_eq!(guess_format(&b), Some(ImageFormat::PNG));
    assert!(matches!(load_from_memory(&b), Err(ImageError::UnsupportedError(_))));
}

#[test]
fn guess_format_jpeg_and_others() {
    assert_eq!(guess_format(&[0xff, 0xd8, 0xff, 0xe0]), Some(ImageFormat::JPEG));
    assert_eq!(guess_format(b"GIF89a.."), Some(ImageFormat::GIF));
    assert_eq!(guess_format(b"GIF87a"), Some(ImageFormat::GIF));
    assert_eq!(guess_format(b"WEBPxxxx"), Some(ImageFormat::WEBP));
    assert_eq!(guess_format(b"BMxx"), Some(ImageFormat::BMP));
    assert_eq!(guess_format(&[0, 0, 1, 0, 7]), Some(ImageFormat::ICO));
    assert!(matches!(load_from_memory(&[0xff, 0xd8, 0xff]), Err(ImageError::UnsupportedError(_))));
}

#[test]
fn guess_format_unknown() {
    assert_eq!(guess_format(&[1, 2, 3, 4]), None);
    assert_eq!(guess_format(&[]), None);
    assert_eq!(guess_format(&[0x89, 0x50]), None);
    assert!(matches!(load_from_memory(&[1, 2, 3, 4]), Err(ImageError::UnsupportedError(_))));
}

#[test]
fn tiff_markers_fix_byte_order() {
    let le = tiff_le(&[8]);
    assert_eq!(guess_format(&le), Some(ImageFormat::TIFF));
    let d = TIFFDecoder::new(le).ok().unwrap();
    assert_eq!(d.byte_order(), ByteOrder::LittleEndian);

    let be = tiff_be_gray8();
    assert_eq!(guess_format(&be), Some(ImageFormat::TIFF));
    let mut d = TIFFDecoder::new(be).ok().unwrap();
    assert_eq!(d.byte_order(), ByteOrder::BigEndian);
    assert_eq!(d.dimensions().ok(), Some((4, 5)));
}

#[test]
fn tiff_eight_bit_result_size() {
    let mut d = TIFFDecoder::new(tiff_le(&[8])).ok().unwrap();
    assert_eq!(d.dimensions().ok(), Some((2, 3)));
    assert_eq!(d.colortype().ok(), Some(ColorType::Gray(8)));
    match d.read_image() {
        Ok(DecodingResult::U8(v)) => assert_eq!(v.len(), 2 * 3),
        _ => panic!("expected 8-bit samples"),
    }
    let mut d = TIFFDecoder::new(tiff_le(&[8, 8, 8])).ok().unwrap();
    assert_eq!(d.colortype().ok(), Some(ColorType::Gray(8)));
    match d.read_image() {
        Ok(DecodingResult::U8(v)) => assert_eq!(v.len(), 2 * 3 * 3),
        _ => panic!("expected 8-bit samples"),
    }
}

#[test]
fn tiff_sixteen_bit_result() {
    let mut d = TIFFDecoder::new(tiff_le(&[16, 8])).ok().unwrap();
    match d.read_image() {
        Ok(DecodingResult::U16(v)) => assert_eq!(v.len(), 2 * 3 * 2),
        _ => panic!("expected 16-bit samples"),
    }
}

#[test]
fn tiff_deep_samples_unsupported() {
    let mut d = TIFFDecoder::new(tiff_le(&[32])).ok().unwrap();
    assert!(matches!(d.read_image(), Err(ImageError::UnsupportedError(_))));
    assert!(matches!(d.colortype(), Err(ImageError::UnsupportedError(_))));
}

#[test]
fn tiff_default_bits_is_one() {
    let mut d = TIFFDecoder::new(tiff_be_gray8()).ok().unwrap();
    assert_eq!(d.colortype().ok(), Some(ColorType::Gray(8)));
    match d.read_image() {
        Ok(DecodingResult::U8(v)) => assert_eq!(v.len(), 4 * 5),
        _ => panic!("expected 8-bit samples"),
    }
}

#[test]
fn tiff_bad_marker_is_format_error() {
    assert!(matches!(TIFFDecoder::new(vec![0x41, 0x42, 0x2a, 0]), Err(ImageError::FormatError(_))));
    assert!(matches!(TIFFDecoder::new(vec![]), Err(ImageError::FormatError(_))));
    assert!(matches!(
        TIFFDecoder::new(vec![0x49, 0x49, 0x2b, 0, 8, 0, 0, 0]),
        Err(ImageError::FormatError(_))
    ));
}

#[test]
fn tiff_truncated_is_image_end() {
    let mut b = tiff_le(&[8]);
    b.truncate(20);
    assert!(matches!(TIFFDecoder::new(b), Err(ImageError::ImageEnd)));
    assert!(matches!(TIFFDecoder::new(vec![0x49, 0x49, 0x2a]), Err(ImageError::ImageEnd)));
}

#[test]
fn tiff_no_next_image() {
    let d = TIFFDecoder::new(tiff_le(&[8])).ok().unwrap();
    assert!(matches!(d.next_image(), Err(ImageError::ImageEnd)));
}

#[test]
fn tiff_loads_as_gray_image() {
    let img = load_from_memory(&tiff_le(&[8])).ok().unwrap();
    assert_eq!(img.color(), ColorType::Gray(8));
    assert_eq!(img.dimensions(), (2, 3));
    assert!(matches!(img, DynamicImage::ImageLuma8(_)));
}

#[test]
fn byte_order_reads() {
    assert_eq!(decode_u16(ByteOrder::LittleEndian, &[1, 2]), 0x0201);
    assert_eq!(decode_u16(ByteOrder::BigEndian, &[1, 2]), 0x0102);
    assert_eq!(decode_u32(ByteOrder::LittleEndian, &[1, 2, 3, 4]), 0x0403_0201);
    assert_eq!(decode_u32(ByteOrder::BigEndian, &[1, 2, 3, 4]), 0x0102_0304);
}

#[test]
fn tag_codes_round_trip() {
    assert_eq!(Tag::from_u16(315), Tag::Artist);
    assert_eq!(Tag::from_u16(256), Tag::ImageWidth);
    assert_eq!(Tag::from_u16(999), Tag::Unknown(999));
    assert_eq!(Tag::Unknown(999).to_u16(), 999);
    assert_eq!(Tag::from_u16(277).to_u16(), 277);
    assert_eq!(Type::from_u16(3), Some(Type::SHORT));
    assert_eq!(Type::from_u16(6), None);
}

#[test]
fn samples_assemble_into_variant() {
    let img = image_from_samples(2, 1, ColorType::RGB(8), DecodingResult::U8(vec![1, 2, 3, 4, 5, 6]))
        .ok()
        .unwrap();
    assert_eq!(img.color(), ColorType::RGB(8));
    match img {
        DynamicImage::ImageRgb8(b) => assert_eq!(b.into_raw(), vec![1, 2, 3, 4, 5, 6]),
        _ => panic!("expected an RGB image"),
    }
    let img = image_from_samples(1, 1, ColorType::GrayA(8), DecodingResult::U8(vec![7, 8]))
        .ok()
        .unwrap();
    assert!(matches!(img, DynamicImage::ImageLumaA8(_)));
}

#[test]
fn samples_too_few_is_not_enough_data() {
    let r = image_from_samples(2, 2, ColorType::Gray(8), DecodingResult::U8(vec![1, 2, 3]));
    assert!(matches!(r, Err(ImageError::NotEnoughData)));
}

#[test]
fn samples_unsupported_color() {
    let r = image_from_samples(1, 1, ColorType::Palette(8), DecodingResult::U8(vec![1]));
    assert!(matches!(r, Err(ImageError::UnsupportedColor(ColorType::Palette(8)))));
    let r = image_from_samples(1, 1, ColorType::Gray(16), DecodingResult::U16(vec![1]));
    assert!(matches!(r, Err(ImageError::UnsupportedColor(ColorType::Gray(16)))));
    let r = image_from_samples(1, 1, ColorType::Gray(8), DecodingResult::U16(vec![1]));
    assert!(matches!(r, Err(ImageError::UnsupportedColor(ColorType::Gray(8)))));
}

#[test]
fn format_without_decoder_is_unsupported() {
    for f in [ImageFormat::PNG, ImageFormat::TGA, ImageFormat::PPM] {
        match load_from_memory_with_format(&[1, 2, 3], f) {
            Err(ImageError::UnsupportedError(m)) => {
                assert_eq!(m, format!("A decoder for {:?} is not available.", f))
            }
            _ => panic!("expected an unsupported format"),
        }
    }
}

fn webp_file(w: u16, h: u16) -> Vec<u8> {
    let mut v = b"RIFF\x00\x00\x00\x00WEBPVP8 \x00\x00\x00\x00".to_vec();
    v.extend_from_slice(&[0x10, 0x02, 0x00, 0x9d, 0x01, 0x2a]);
    v.extend_from_slice(&w.to_le_bytes());
    v.extend_from_slice(&h.to_le_bytes());
    v
}

#[test]
fn webp_header_gives_dimensions() {
    let mut d = WebpDecoder::new(webp_file(0x4000 | 640, 480));
    assert_eq!(d.dimensions().ok(), Some((640, 480)));
    assert_eq!(d.dimensions().ok(), Some((640, 480)));
    assert_eq!(d.colortype().ok(), Some(ColorType::Gray(8)));
    match d.read_image() {
        Ok(DecodingResult::U8(v)) => assert!(v.is_empty()),
        _ => panic!("expected luma samples"),
    }
}

#[test]
fn webp_bad_header_is_format_error() {
    let mut d = WebpDecoder::new(b"WEBP not a riff file at all, no".to_vec());
    assert!(matches!(d.dimensions(), Err(ImageError::FormatError(_))));
    let mut b = webp_file(1, 1);
    b[20] = 0x11;
    let mut d = WebpDecoder::new(b);
    assert!(matches!(d.read_image(), Err(ImageError::FormatError(_))));
}

#[test]
fn webp_empty_frame_assembles_empty_image() {
    let img = decoder_to_image(WebpDecoder::new(webp_file(0, 0))).ok().unwrap();
    assert_eq!(img.dimensions(), (0, 0));
    let r = decoder_to_image(WebpDecoder::new(webp_file(2, 2)));
    assert!(matches!(r, Err(ImageError::NotEnoughData)));
}

#[test]
fn error_descriptions() {
    assert_eq!(ImageError::NotEnoughData.description(), "Not enough data");
    assert_eq!(ImageError::ImageEnd.description(), "Image end");
    assert_eq!(ImageError::FormatError("x".to_string()).description(), "Format error");
    let io = std::io::Error::new(std::io::ErrorKind::Other, "boom");
    let e = ImageError::from(io);
    assert!(e.cause().is_some());
    assert!(ImageError::DimensionError.cause().is_none());
}

#[test]
fn load_from_memory_reports_guessed_format() {
    let png = [0x89, 0x50, 0x4e, 0x47, 0x0d, 0x0a, 0x1a, 0x0a, 0, 0];
    match load_from_memory(&png) {
        Err(ImageError::UnsupportedError(m)) => assert_eq!(m, "A decoder for PNG is not available."),
        _ => panic!("expected PNG to be selected"),
    }
    match load_from_memory(&[0xff, 0xd8, 0xff, 0xe0, 0]) {
        Err(ImageError::UnsupportedError(m)) => assert_eq!(m, "A decoder for JPEG is not available."),
        _ => panic!("expected JPEG to be selected"),
    }
    match load_from_memory(&[9, 9, 9]) {
        Err(ImageError::UnsupportedError(m)) => assert_eq!(m, "Unsupported image format"),
        _ => panic!("expected no format"),
    }
    assert!(matches!(load_from_memory(&[0x49, 0x49, 0x2a, 0x00]), Err(ImageError::ImageEnd)));
    assert!(matches!(load_from_memory(b"WEBP...."), Err(ImageError::FormatError(_))));
}

#[test]
fn tiff_load_with_too_few_planes_is_not_enough_data() {
    // RGB would need three samples per pixel, but one plane is declared
    let mut b = tiff_le(&[8]);
    b[8] = 4;
    b.truncate(8 + 2 + 3 * 12);
    b.extend_from_slice(&[0x15, 0x01, 3, 0, 1, 0, 0, 0, 3, 0, 0, 0]);
    b.extend_from_slice(&[0, 0, 0, 0]);
    let mut d = TIFFDecoder::new(b.clone()).ok().unwrap();
    assert_eq!(d.colortype().ok(), Some(ColorType::RGB(8)));
    assert!(matches!(load_from_memory(&b), Err(ImageError::NotEnoughData)));
}

#[test]
fn io_error_cause_is_the_wrapped_error() {
    let e = ImageError::from(std::io::Error::new(std::io::ErrorKind::UnexpectedEof, "short"));
    assert_eq!(e.cause().unwrap().kind(), std::io::ErrorKind::UnexpectedEof);
}

#[test]
fn samples_too_many_is_dimension_error() {
    let r = image_from_samples(1, 1, ColorType::Gray(8), DecodingResult::U8(vec![1, 2]));
    assert!(matches!(r, Err(ImageError::DimensionError)));
    // three planes declared for a gray image
    assert!(matches!(load_from_memory(&tiff_le(&[8, 8, 8])), Err(ImageError::DimensionError)));
}

#[test]
fn tiff_missing_width_is_format_error() {
    let mut b = tiff_le(&[8]);
    b[10] = 0x99; // the width entry now has another tag
    assert!(matches!(TIFFDecoder::new(b.clone()), Err(ImageError::FormatError(_))));
    assert!(matches!(load_from_memory(&b), Err(ImageError::FormatError(_))));
}

#[test]
fn tiff_bits_past_end_is_image_end() {
    let mut b = tiff_le(&[8, 8, 8]);
    b.truncate(b.len() - 2);
    assert!(matches!(TIFFDecoder::new(b), Err(ImageError::ImageEnd)));
}
