//! Decoding of WEBP files: the container and key-frame header. The luma
//! plane of a frame is filled by a VP8 decoder.

use vstd::prelude::*;

use crate::color::ColorType;
use crate::image::{DecodingResult, ImageDecoder, ImageError, ImageResult};
use crate::tiff::stream::{decode_u16, spec_u16, ByteOrder};

verus! {

/// A key frame: its size and its luma plane.
#[derive(Clone, Debug)]
pub struct Frame {
    /// Width in pixels
    pub width: u16,
    /// Height in pixels
    pub height: u16,
    /// Luma samples, row by row
    pub ybuf: Vec<u8>,
}

/// Whether `data` holds `sig` at `at`.
pub open spec fn spec_holds_at(data: Seq<u8>, at: int, sig: Seq<u8>) -> bool {
    at + sig.len() <= data.len() && data.subrange(at, at + sig.len()) == sig
}

/// Width and height of the key frame of a WEBP file: a RIFF container of
/// kind `WEBP` whose first chunk is `VP8 `, whose frame tag marks a key frame
/// and is followed by the start code and the two 14-bit dimensions.
pub open spec fn spec_webp_size(data: Seq<u8>) -> Option<(u16, u16)> {
    if spec_holds_at(data, 0, seq![0x52u8, 0x49, 0x46, 0x46]) && spec_holds_at(
        data,
        8,
        seq![0x57u8, 0x45, 0x42, 0x50, 0x56, 0x50, 0x38, 0x20],
    ) && data.len() >= 30 && data[20] % 2 == 0 && spec_holds_at(data, 23, seq![0x9du8, 0x01, 0x2a]) {
        Some(
            (
                (spec_u16(ByteOrder::LittleEndian, data.subrange(26, 28)) % 16384) as u16,
                (spec_u16(ByteOrder::LittleEndian, data.subrange(28, 30)) % 16384) as u16,
            ),
        )
    } else {
        None
    }
}

/// Whether `data` holds `sig` at `at`.
fn holds_at(data: &[u8], at: usize, sig: &[u8]) -> (r: bool)
    ensures
        r == spec_holds_at(data@, at as int, sig@),
{
    if at > data.len() || sig.len() > data.len() - at {
        return false;
    }
    let dlen = data.len();
    let mut k: usize = 0;
    while k < sig.len()
        invariant
            dlen == data@.len(),
            at + sig@.len() <= data@.len(),
            k <= sig@.len(),
            forall|i: int| 0 <= i < k ==> data@[at + i] == sig@[i],
        decreases sig@.len() - k,
    {
        if data[at + k] != sig[k] {
            assert(data@.subrange(at as int, at + sig@.len())[k as int] != sig@[k as int]);
            return false;
        }
        k = k + 1;
    }
    assert(data@.subrange(at as int, at + sig@.len()) =~= sig@);
    true
}

/// A decoder of WEBP files.
pub struct WebpDecoder {
    r: Vec<u8>,
    frame: Frame,
    have_frame: bool,
    decoded_rows: u32,
}

impl WebpDecoder {
    /// The bytes of the file.
    pub closed spec fn spec_data(&self) -> Seq<u8> {
        self.r@
    }

    /// Whether the header has been read.
    pub closed spec fn spec_have_frame(&self) -> bool {
        self.have_frame
    }

    /// Width, height and luma samples of the frame.
    pub closed spec fn spec_frame(&self) -> (u16, u16, Seq<u8>) {
        (self.frame.width, self.frame.height, self.frame.ybuf@)
    }

    /// Rows of the frame decoded so far.
    pub closed spec fn spec_decoded_rows(&self) -> u32 {
        self.decoded_rows
    }

    /// Creates a decoder for the file `r`; nothing is read yet.
    pub fn new(r: Vec<u8>) -> (d: WebpDecoder)
        ensures
            d.spec_data() == r@,
            !d.spec_have_frame(),
            d.spec_frame() == (0u16, 0u16, Seq::<u8>::empty()),
            d.spec_decoded_rows() == 0,
    {
        let f = Frame { width: 0, height: 0, ybuf: Vec::new() };
        WebpDecoder { r, have_frame: false, frame: f, decoded_rows: 0 }
    }

    /// Reads the header once: later calls find it read.
    fn read_metadata(&mut self) -> (res: ImageResult<()>)
        ensures
            final(self).spec_data() == old(self).spec_data(),
            final(self).spec_decoded_rows() == old(self).spec_decoded_rows(),
            old(self).spec_have_frame() ==> res is Ok && *final(self) == *old(self),
            !old(self).spec_have_frame() ==> {
                &&& res is Ok <==> spec_webp_size(old(self).spec_data()) is Some
                &&& res is Err ==> (res matches Err(ImageError::FormatError(_)))
                &&& res is Err ==> final(self).spec_have_frame() == old(self).spec_have_frame()
                    && final(self).spec_frame() == old(self).spec_frame()
                &&& res is Ok ==> final(self).spec_have_frame()
                &&& res is Ok ==> (spec_webp_size(old(self).spec_data()) matches Some((w, h))
                    && final(self).spec_frame() == (w, h, old(self).spec_frame().2))
            },
    {
        if self.have_frame {
            return Ok(());
        }
        let data = self.r.as_slice();
        if !holds_at(data, 0, &[0x52u8, 0x49, 0x46, 0x46]) || !holds_at(
            data,
            8,
            &[0x57u8, 0x45, 0x42, 0x50, 0x56, 0x50, 0x38, 0x20],
        ) || data.len() < 30 || data[20] % 2 != 0 || !holds_at(data, 23, &[0x9du8, 0x01, 0x2a]) {
            return Err(ImageError::FormatError("no VP8 key frame found".to_owned()));
        }
        let width = decode_u16(ByteOrder::LittleEndian, vstd::slice::slice_subrange(data, 26, 28))
            % 16384;
        let height = decode_u16(ByteOrder::LittleEndian, vstd::slice::slice_subrange(data, 28, 30))
            % 16384;
        self.frame.width = width;
        self.frame.height = height;
        self.have_frame = true;
        Ok(())
    }

    /// The size of the frame, once the header is read.
    pub fn frame_dimensions(&mut self) -> (res: ImageResult<(u32, u32)>)
        ensures
            final(self).spec_decoded_rows() == old(self).spec_decoded_rows(),
            final(self).spec_frame().2 == old(self).spec_frame().2,
            old(self).spec_have_frame() ==> *final(self) == *old(self),
            res is Err ==> (res matches Err(ImageError::FormatError(_))),
            !old(self).spec_have_frame() ==> (spec_webp_size(old(self).spec_data()) matches Some((w, h))
                ==> final(self).spec_have_frame() && final(self).spec_frame() == (w, h, old(
                self,
            ).spec_frame().2)),
            final(self).spec_data() == old(self).spec_data(),
            old(self).spec_have_frame() ==> res == Ok::<(u32, u32), ImageError>(
                (old(self).spec_frame().0 as u32, old(self).spec_frame().1 as u32),
            ),
            !old(self).spec_have_frame() ==> {
                &&& res is Ok <==> spec_webp_size(old(self).spec_data()) is Some
                &&& spec_webp_size(old(self).spec_data()) matches Some((w, h)) ==> (res == Ok::<
                    (u32, u32),
                    ImageError,
                >((w as u32, h as u32)))
            },
    {
        match self.read_metadata() {
            Ok(()) => Ok((self.frame.width as u32, self.frame.height as u32)),
            Err(e) => Err(e),
        }
    }

    /// The luma samples of the frame, once the header is read.
    pub fn frame_samples(&mut self) -> (res: ImageResult<DecodingResult>)
        ensures
            final(self).spec_decoded_rows() == old(self).spec_decoded_rows(),
            final(self).spec_frame().2 == old(self).spec_frame().2,
            old(self).spec_have_frame() ==> *final(self) == *old(self),
            res is Err ==> (res matches Err(ImageError::FormatError(_))),
            !old(self).spec_have_frame() ==> (spec_webp_size(old(self).spec_data()) matches Some((w, h))
                ==> final(self).spec_have_frame() && final(self).spec_frame() == (w, h, old(
                self,
            ).spec_frame().2)),
            final(self).spec_data() == old(self).spec_data(),
            (old(self).spec_have_frame() || spec_webp_size(old(self).spec_data()) is Some) ==> (res matches Ok(
                DecodingResult::U8(v),
            ) && v@ == old(self).spec_frame().2),
            !(old(self).spec_have_frame() || spec_webp_size(old(self).spec_data()) is Some)
                ==> res is Err,
    {
        match self.read_metadata() {
            Ok(()) => {
                let v = self.frame.ybuf.clone();
                assert(v@ =~= self.frame.ybuf@);
                Ok(DecodingResult::U8(v))
            },
            Err(e) => Err(e),
        }
    }
}

impl ImageDecoder for WebpDecoder {
    open spec fn spec_dimensions(old: Self, new: Self, r: ImageResult<(u32, u32)>) -> bool {
        &&& (new.spec_decoded_rows() == old.spec_decoded_rows())
        &&& (new.spec_frame().2 == old.spec_frame().2)
        &&& (old.spec_have_frame() ==> new == old)
        &&& (r is Err ==> (r matches Err(ImageError::FormatError(_))))
        &&& (!old.spec_have_frame() ==> (spec_webp_size(old.spec_data()) matches Some((w, h))
                ==> new.spec_have_frame() && new.spec_frame() == (w, h, old.spec_frame().2)))
        &&& (new.spec_data() == old.spec_data())
        &&& (old.spec_have_frame() ==> r == Ok::<(u32, u32), ImageError>(
                (old.spec_frame().0 as u32, old.spec_frame().1 as u32),
            ))
        &&& (!old.spec_have_frame() ==> {
                &&& r is Ok <==> spec_webp_size(old.spec_data()) is Some
                &&& spec_webp_size(old.spec_data()) matches Some((w, h)) ==> (r == Ok::<
                    (u32, u32),
                    ImageError,
                >((w as u32, h as u32)))
            })
    }

    open spec fn spec_colortype(old: Self, new: Self, r: ImageResult<ColorType>) -> bool {
        &&& (new == old)
        &&& (r == Ok::<ColorType, ImageError>(ColorType::Gray(8)))
    }

    open spec fn spec_read_image(old: Self, new: Self, r: ImageResult<DecodingResult>) -> bool {
        &&& (new.spec_decoded_rows() == old.spec_decoded_rows())
        &&& (new.spec_frame().2 == old.spec_frame().2)
        &&& (old.spec_have_frame() ==> new == old)
        &&& (r is Err ==> (r matches Err(ImageError::FormatError(_))))
        &&& (!old.spec_have_frame() ==> (spec_webp_size(old.spec_data()) matches Some((w, h))
                ==> new.spec_have_frame() && new.spec_frame() == (w, h, old.spec_frame().2)))
        &&& (new.spec_data() == old.spec_data())
        &&& ((old.spec_have_frame() || spec_webp_size(old.spec_data()) is Some) ==> (r matches Ok(
                DecodingResult::U8(v),
            ) && v@ == old.spec_frame().2))
        &&& (!(old.spec_have_frame() || spec_webp_size(old.spec_data()) is Some)
                ==> r is Err)
    }

    fn dimensions(&mut self) -> (res: ImageResult<(u32, u32)>) {
        self.frame_dimensions()
    }

    fn colortype(&mut self) -> (r: ImageResult<ColorType>) {
        Ok(ColorType::Gray(8))
    }

    fn read_image(&mut self) -> (res: ImageResult<DecodingResult>) {
        self.frame_samples()
    }
}

} // verus!
