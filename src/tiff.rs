//! Decoding of TIFF files.

pub mod ifd;
pub mod stream;

use vstd::prelude::*;

use std::collections::HashMap;

use crate::color::ColorType;
use crate::image::{DecodingResult, ImageDecoder, ImageError, ImageResult};
use crate::tiff::ifd::{spec_single_value, Directory, Entry, Tag, Type};
use crate::tiff::stream::{decode_u16, decode_u32, spec_u16, spec_u32, ByteOrder, EndianReader};

verus! {

broadcast use vstd::std_specs::hash::group_hash_axioms;

/// The byte order that the leading marker of `data` declares, if any.
pub open spec fn spec_marker(data: Seq<u8>) -> Option<ByteOrder> {
    if data.len() >= 2 && data[0] == 0x49 && data[1] == 0x49 {
        Some(ByteOrder::LittleEndian)
    } else if data.len() >= 2 && data[0] == 0x4d && data[1] == 0x4d {
        Some(ByteOrder::BigEndian)
    } else {
        None
    }
}

/// The byte order and the offset of the first directory of a file whose
/// header is well formed: a marker, the number 42, the offset.
pub open spec fn spec_header(data: Seq<u8>) -> Option<(ByteOrder, u32)> {
    match spec_marker(data) {
        Some(order) => if data.len() >= 8 && spec_u16(order, data.subrange(2, 4)) == 42 {
            Some((order, spec_u32(order, data.subrange(4, 8))))
        } else {
            None
        },
        None => None,
    }
}

/// The entry stored at `p`, with its tag code; `None` for a field type that
/// this library does not know.
pub open spec fn spec_entry_at(data: Seq<u8>, order: ByteOrder, p: int) -> Option<(u16, Entry)> {
    match Type::spec_from_u16(spec_u16(order, data.subrange(p + 2, p + 4))) {
        Some(t) => Some(
            (
                spec_u16(order, data.subrange(p, p + 2)),
                Entry {
                    type_: t,
                    count: spec_u32(order, data.subrange(p + 4, p + 8)),
                    offset: [data[p + 8], data[p + 9], data[p + 10], data[p + 11]],
                },
            ),
        ),
        None => None,
    }
}

/// The directory made of the first `n` entries stored from `start`; a later
/// entry replaces an earlier one with the same tag.
pub open spec fn spec_entries(data: Seq<u8>, order: ByteOrder, start: int, n: nat) -> Map<u16, Entry>
    decreases n,
{
    if n == 0 {
        Map::empty()
    } else {
        let prev = spec_entries(data, order, start, (n - 1) as nat);
        match spec_entry_at(data, order, start + 12 * (n - 1)) {
            Some((k, e)) => prev.insert(k, e),
            None => prev,
        }
    }
}

/// The number of entries of the directory at `off`.
pub open spec fn spec_ifd_count(data: Seq<u8>, order: ByteOrder, off: int) -> nat {
    spec_u16(order, data.subrange(off, off + 2)) as nat
}

/// Whether the directory at `off` lies wholly inside `data`: its entry
/// count, its entries and the offset of the next directory.
pub open spec fn spec_ifd_fits(data: Seq<u8>, order: ByteOrder, off: int) -> bool {
    &&& off + 2 <= data.len()
    &&& off + 2 + 12 * spec_ifd_count(data, order, off) + 4 <= data.len()
}

/// The offset of the directory after the one at `off`; zero if none follows.
pub open spec fn spec_ifd_next(data: Seq<u8>, order: ByteOrder, off: int) -> u32 {
    let e = off + 2 + 12 * spec_ifd_count(data, order, off);
    spec_u32(order, data.subrange(e, e + 4))
}

/// The directory at `off`.
pub open spec fn spec_ifd(data: Seq<u8>, order: ByteOrder, off: int) -> Map<u16, Entry> {
    spec_entries(data, order, off + 2, spec_ifd_count(data, order, off))
}

/// The bits of each sample that a directory declares: one when it declares
/// none; `None` when the declaration is malformed or lies past the data.
pub open spec fn spec_bits(data: Seq<u8>, order: ByteOrder, dir: Map<u16, Entry>) -> Option<
    Seq<u16>,
> {
    let code = Tag::BitsPerSample.spec_to_u16();
    if !dir.contains_key(code) {
        Some(seq![1u16])
    } else {
        let e = dir[code];
        if e.type_ != Type::SHORT || e.count == 0 {
            None
        } else if e.count <= 2 {
            Some(Seq::new(e.count as nat, |i: int| spec_u16(order, e.offset@.subrange(2 * i, 4))))
        } else {
            let at = spec_u32(order, e.offset@) as int;
            if at + 2 * e.count <= data.len() {
                Some(
                    Seq::new(
                        e.count as nat,
                        |i: int| spec_u16(order, data.subrange(at + 2 * i, at + 2 * i + 2)),
                    ),
                )
            } else {
                None
            }
        }
    }
}

/// The single value of the entry of tag `code`, if the directory holds one.
pub open spec fn spec_tag_value(order: ByteOrder, dir: Map<u16, Entry>, code: u16) -> Option<u32> {
    if dir.contains_key(code) {
        spec_single_value(order, dir[code])
    } else {
        None
    }
}

/// The narrowest sample width, in bits, that covers every declared depth:
/// 8 or 16; `None` above 16.
pub open spec fn spec_sample_bits(bits: Seq<u16>) -> Option<u8> {
    if forall|i: int| 0 <= i < bits.len() ==> bits[i] <= 8 {
        Some(8)
    } else if forall|i: int| 0 <= i < bits.len() ==> bits[i] <= 16 {
        Some(16)
    } else {
        None
    }
}

/// Whether a file with a marker ends inside its header: before the number 42,
/// or, after it, before the offset of the first directory.
pub open spec fn spec_header_truncated(data: Seq<u8>) -> bool {
    match spec_marker(data) {
        Some(order) => data.len() < 4 || (spec_u16(order, data.subrange(2, 4)) == 42 && data.len()
            < 8),
        None => false,
    }
}

/// Whether the bits of each sample that a directory declares lie past the
/// end of the data.
pub open spec fn spec_bits_truncated(data: Seq<u8>, order: ByteOrder, dir: Map<u16, Entry>) -> bool {
    let code = Tag::BitsPerSample.spec_to_u16();
    &&& dir.contains_key(code)
    &&& dir[code].type_ == Type::SHORT
    &&& dir[code].count > 2
    &&& spec_u32(order, dir[code].offset@) + 2 * dir[code].count > data.len()
}

/// Whether reading the image whose directory is at `off` runs past the end
/// of the data: in the directory, or in the bits of each sample once width
/// and length are found.
pub open spec fn spec_image_truncated(data: Seq<u8>, order: ByteOrder, off: u32) -> bool {
    let dir = spec_ifd(data, order, off as int);
    ||| !spec_ifd_fits(data, order, off as int)
    ||| (spec_tag_value(order, dir, Tag::ImageWidth.spec_to_u16()) is Some && spec_tag_value(
        order,
        dir,
        Tag::ImageLength.spec_to_u16(),
    ) is Some && spec_bits_truncated(data, order, dir))
}

/// Whether opening `data` as a TIFF file fails for want of data.
pub open spec fn spec_open_truncated(data: Seq<u8>) -> bool {
    match spec_header(data) {
        None => spec_header_truncated(data),
        Some(h) => spec_image_truncated(data, h.0, h.1),
    }
}

/// The error of opening `data` as a TIFF file: the end of the image when the
/// data runs out, a format error otherwise.
pub open spec fn spec_open_error(data: Seq<u8>, r: ImageResult<TIFFDecoder>) -> bool {
    &&& (r matches Err(ImageError::ImageEnd)) <==> spec_open_truncated(data)
    &&& (r matches Err(ImageError::ImageEnd)) || (r matches Err(ImageError::FormatError(_)))
}

/// The representation of a TIFF decoder.
pub struct TIFFDecoder {
    reader: EndianReader,
    byte_order: ByteOrder,
    next_ifd: Option<u32>,
    ifd: Option<Directory>,
    width: u32,
    height: u32,
    bits_per_sample: Vec<u16>,
    samples: u32,
}

/// Reads the directory at `off`: its entries and the offset of the next one.
fn read_directory(reader: &mut EndianReader, off: u32) -> (r: ImageResult<(Directory, u32)>)
    ensures
        final(reader).spec_data() == old(reader).spec_data(),
        final(reader).spec_order() == old(reader).spec_order(),
        r is Ok <==> spec_ifd_fits(old(reader).spec_data(), old(reader).spec_order(), off as int),
        r is Err ==> r matches Err(ImageError::ImageEnd),
        r matches Ok((d, next)) ==> {
            &&& d@ == spec_ifd(old(reader).spec_data(), old(reader).spec_order(), off as int)
            &&& next == spec_ifd_next(old(reader).spec_data(), old(reader).spec_order(), off as int)
        },
{
    let ghost data = reader.spec_data();
    let ghost order = reader.spec_order();
    reader.seek(off);
    let n = match reader.read_u16() {
        Ok(n) => n,
        Err(e) => return Err(e),
    };
    let ghost start: int = off + 2;
    let mut dir: Directory = HashMap::new();
    let mut i: u16 = 0;
    while i < n
        invariant
            reader.spec_data() == data,
            reader.spec_order() == order,
            data == old(reader).spec_data(),
            order == old(reader).spec_order(),
            off + 2 <= data.len(),
            start == off + 2,
            n == spec_ifd_count(data, order, off as int),
            i <= n,
            reader.spec_pos() == start + 12 * i,
            dir@ == spec_entries(data, order, start, i as nat),
        decreases n - i,
    {
        let p = reader.position();
        let tag = match reader.read_u16() {
            Ok(v) => v,
            Err(e) => return Err(e),
        };
        let typ = match reader.read_u16() {
            Ok(v) => v,
            Err(e) => return Err(e),
        };
        let count = match reader.read_u32() {
            Ok(v) => v,
            Err(e) => return Err(e),
        };
        let raw = match reader.read_raw4() {
            Ok(v) => v,
            Err(e) => return Err(e),
        };
        match Type::from_u16(typ) {
            Some(t) => {
                let entry = Entry { type_: t, count, offset: raw };
                assert(entry.offset =~= [data[p + 8], data[p + 9], data[p + 10], data[p + 11]]);
                dir.insert(tag, entry);
            },
            None => {},
        }
        i = i + 1;
    }
    match reader.read_u32() {
        Ok(next) => Ok((dir, next)),
        Err(e) => Err(e),
    }
}

} // verus!

verus! {

/// The number of samples in each pixel that a directory declares: one when it
/// declares none; `None` when the declaration is not a single value.
pub open spec fn spec_samples(order: ByteOrder, dir: Map<u16, Entry>) -> Option<u32> {
    let code = Tag::SamplesPerPixel.spec_to_u16();
    if !dir.contains_key(code) {
        Some(1)
    } else {
        spec_single_value(order, dir[code])
    }
}

/// Width, height, bits of each sample and samples of each pixel of the image
/// that the directory at `off` describes; `None` when the directory does not
/// fit in `data` or one of them is missing or malformed.
pub open spec fn spec_image_at(data: Seq<u8>, order: ByteOrder, off: u32) -> Option<
    (u32, u32, Seq<u16>, u32),
> {
    let dir = spec_ifd(data, order, off as int);
    if !spec_ifd_fits(data, order, off as int) {
        None
    } else {
        match (
            spec_tag_value(order, dir, Tag::ImageWidth.spec_to_u16()),
            spec_tag_value(order, dir, Tag::ImageLength.spec_to_u16()),
            spec_bits(data, order, dir),
            spec_samples(order, dir),
        ) {
            (Some(w), Some(h), Some(b), Some(s)) => Some((w, h, b, s)),
            _ => None,
        }
    }
}

/// The color type of pixels of `samples` samples of the given bits.
pub open spec fn spec_tiff_color(bits: Seq<u16>, samples: u32) -> Option<ColorType> {
    match spec_sample_bits(bits) {
        Some(d) => if samples == 1 {
            Some(ColorType::Gray(d))
        } else if samples == 2 {
            Some(ColorType::GrayA(d))
        } else if samples == 3 {
            Some(ColorType::RGB(d))
        } else if samples == 4 {
            Some(ColorType::RGBA(d))
        } else {
            None
        },
        None => None,
    }
}

/// The single value of the entry of tag `code`, if the directory holds one.
fn tag_value(dir: &Directory, order: ByteOrder, code: u16) -> (r: Option<u32>)
    ensures
        r == spec_tag_value(order, dir@, code),
{
    match dir.get(&code) {
        Some(e) => e.single_value(order),
        None => None,
    }
}

/// Reads the bits of each sample that `dir` declares.
fn read_bits(reader: &mut EndianReader, dir: &Directory) -> (r: ImageResult<Vec<u16>>)
    ensures
        final(reader).spec_data() == old(reader).spec_data(),
        final(reader).spec_order() == old(reader).spec_order(),
        r is Ok <==> spec_bits(old(reader).spec_data(), old(reader).spec_order(), dir@) is Some,
        r matches Ok(v) ==> v@ == spec_bits(old(reader).spec_data(), old(reader).spec_order(), dir@)->Some_0,
        r is Err ==> ((r matches Err(ImageError::ImageEnd)) <==> spec_bits_truncated(
            old(reader).spec_data(),
            old(reader).spec_order(),
            dir@,
        )),
        r is Err ==> ((r matches Err(ImageError::ImageEnd)) || (r matches Err(
            ImageError::FormatError(_),
        ))),
{
    let ghost data = reader.spec_data();
    let order = reader.byte_order();
    let e = match dir.get(&Tag::BitsPerSample.to_u16()) {
        Some(e) => *e,
        None => {
            let v = vec![1u16];
            assert(v@ =~= seq![1u16]);
            return Ok(v);
        },
    };
    if e.type_ != Type::SHORT || e.count == 0 {
        return Err(ImageError::FormatError("malformed bits per sample".to_owned()));
    }
    let mut v: Vec<u16> = Vec::new();
    if e.count <= 2 {
        let raw = e.offset.as_slice();
        v.push(decode_u16(order, vstd::slice::slice_subrange(raw, 0, 4)));
        if e.count == 2 {
            v.push(decode_u16(order, vstd::slice::slice_subrange(raw, 2, 4)));
        }
        assert(v@ =~= Seq::new(e.count as nat, |i: int| spec_u16(order, e.offset@.subrange(2 * i, 4))));
        return Ok(v);
    }
    let at = decode_u32(order, e.offset.as_slice());
    reader.seek(at);
    let mut k: u32 = 0;
    while k < e.count
        invariant
            reader.spec_data() == data,
            reader.spec_order() == order,
            data == old(reader).spec_data(),
            order == old(reader).spec_order(),
            at == spec_u32(order, e.offset@),
            e == dir@[Tag::BitsPerSample.spec_to_u16()],
            dir@.contains_key(Tag::BitsPerSample.spec_to_u16()),
            e.type_ == Type::SHORT,
            e.count > 2,
            k <= e.count,
            reader.spec_pos() == at + 2 * k,
            k > 0 ==> at + 2 * k <= data.len(),
            v@ =~= Seq::new(
                k as nat,
                |i: int| spec_u16(order, data.subrange(at + 2 * i, at + 2 * i + 2)),
            ),
        decreases e.count - k,
    {
        match reader.read_u16() {
            Ok(b) => v.push(b),
            Err(err) => return Err(err),
        }
        k = k + 1;
        assert(v@ =~= Seq::new(
            k as nat,
            |i: int| spec_u16(order, data.subrange(at + 2 * i, at + 2 * i + 2)),
        ));
    }
    Ok(v)
}

impl TIFFDecoder {
    /// Well-formedness: reads follow the decoder's byte order.
    pub closed spec fn inv(&self) -> bool {
        self.reader.spec_order() == self.byte_order
    }

    /// The bytes of the file.
    pub closed spec fn spec_data(&self) -> Seq<u8> {
        self.reader.spec_data()
    }

    /// The byte order of the file.
    pub closed spec fn spec_order(&self) -> ByteOrder {
        self.byte_order
    }

    /// The offset of the next directory to read, if any.
    pub closed spec fn spec_next_ifd(&self) -> Option<u32> {
        self.next_ifd
    }

    /// The current directory, once one is read.
    pub closed spec fn spec_ifd(&self) -> Option<Map<u16, Entry>> {
        match self.ifd {
            Some(d) => Some(d@),
            None => None,
        }
    }

    /// Width, height, bits of each sample and samples of each pixel of the
    /// current image.
    pub closed spec fn spec_geometry(&self) -> (u32, u32, Seq<u16>, u32) {
        (self.width, self.height, self.bits_per_sample@, self.samples)
    }

    /// The byte order of the file.
    pub fn byte_order(&self) -> (r: ByteOrder)
        ensures
            r == self.spec_order(),
    {
        self.byte_order
    }

    /// Creates a decoder for the file `r` and reads its first image.
    pub fn new(r: Vec<u8>) -> (res: ImageResult<TIFFDecoder>)
        ensures
            res is Ok <==> (spec_header(r@) matches Some(h) && spec_image_at(r@, h.0, h.1) is Some),
            spec_marker(r@) is None ==> res matches Err(ImageError::FormatError(_)),
            res is Err ==> spec_open_error(r@, res),
            res matches Ok(d) ==> {
                &&& d.inv()
                &&& d.spec_data() == r@
                &&& spec_header(r@) matches Some(h) && {
                    &&& d.spec_order() == h.0
                    &&& d.spec_ifd() == Some(spec_ifd(r@, h.0, h.1 as int))
                    &&& d.spec_geometry() == spec_image_at(r@, h.0, h.1)->Some_0
                    &&& d.spec_next_ifd() == if spec_ifd_next(r@, h.0, h.1 as int) == 0 {
                        None
                    } else {
                        Some(spec_ifd_next(r@, h.0, h.1 as int))
                    }
                }
            },
    {
        TIFFDecoder {
            reader: EndianReader::new(r, ByteOrder::LittleEndian),
            byte_order: ByteOrder::LittleEndian,
            next_ifd: None,
            ifd: None,
            width: 0,
            height: 0,
            bits_per_sample: vec![1],
            samples: 1,
        }.init()
    }

    /// Reads the header: the byte order and the offset of the first directory.
    fn read_header(&mut self) -> (r: ImageResult<()>)
        requires
            old(self).inv(),
        ensures
            final(self).inv(),
            final(self).spec_data() == old(self).spec_data(),
            r is Ok <==> spec_header(old(self).spec_data()) is Some,
            spec_marker(old(self).spec_data()) is None ==> r matches Err(ImageError::FormatError(_)),
            r is Ok ==> (spec_header(old(self).spec_data()) matches Some(h) && final(self).spec_order()
                == h.0 && final(self).spec_next_ifd() == Some(h.1)),
            r is Err ==> ((r matches Err(ImageError::ImageEnd)) <==> spec_header_truncated(
                old(self).spec_data(),
            )),
            r is Err ==> ((r matches Err(ImageError::ImageEnd)) || (r matches Err(
                ImageError::FormatError(_),
            ))),
    {
        let ghost data = self.reader.spec_data();
        self.reader.seek(0);
        let marker = match self.reader.read_u16() {
            Ok(m) => m,
            Err(_) => return Err(ImageError::FormatError("TIFF signature not found".to_owned())),
        };
        proof {
            if data.len() >= 2 {
                let b = data.subrange(0, 2);
                assert(b[0] == data[0] && b[1] == data[1]);
            }
        }
        let order = if marker == 0x4949 {
            ByteOrder::LittleEndian
        } else if marker == 0x4d4d {
            ByteOrder::BigEndian
        } else {
            return Err(ImageError::FormatError("TIFF signature not found".to_owned()));
        };
        self.byte_order = order;
        self.reader.set_byte_order(order);
        let magic = match self.reader.read_u16() {
            Ok(m) => m,
            Err(e) => return Err(e),
        };
        if magic != 42 {
            return Err(ImageError::FormatError("TIFF signature invalid".to_owned()));
        }
        let offset = match self.reader.read_u32() {
            Ok(o) => o,
            Err(e) => return Err(e),
        };
        self.next_ifd = Some(offset);
        Ok(())
    }

    /// Reads the header, then the first image.
    pub fn init(self) -> (res: ImageResult<TIFFDecoder>)
        requires
            self.inv(),
        ensures
            res is Ok <==> (spec_header(self.spec_data()) matches Some(h) && spec_image_at(
                self.spec_data(),
                h.0,
                h.1,
            ) is Some),
            spec_marker(self.spec_data()) is None ==> res matches Err(ImageError::FormatError(_)),
            res is Err ==> spec_open_error(self.spec_data(), res),
            res matches Ok(d) ==> {
                &&& d.inv()
                &&& d.spec_data() == self.spec_data()
                &&& spec_header(self.spec_data()) matches Some(h) && {
                    &&& d.spec_order() == h.0
                    &&& d.spec_ifd() == Some(spec_ifd(self.spec_data(), h.0, h.1 as int))
                    &&& d.spec_geometry() == spec_image_at(self.spec_data(), h.0, h.1)->Some_0
                    &&& d.spec_next_ifd() == if spec_ifd_next(self.spec_data(), h.0, h.1 as int) == 0 {
                        None
                    } else {
                        Some(spec_ifd_next(self.spec_data(), h.0, h.1 as int))
                    }
                }
            },
    {
        let mut d = self;
        match d.read_header() {
            Ok(()) => d.next_image(),
            Err(e) => Err(e),
        }
    }

    /// Reads in the next image. When no further image follows, reports the
    /// end of the image.
    pub fn next_image(self) -> (res: ImageResult<TIFFDecoder>)
        requires
            self.inv(),
        ensures
            res is Ok <==> (self.spec_next_ifd() matches Some(off) && spec_image_at(
                self.spec_data(),
                self.spec_order(),
                off,
            ) is Some),
            self.spec_next_ifd() is None ==> res matches Err(ImageError::ImageEnd),
            self.spec_next_ifd() matches Some(off) ==> (res is Err ==> ((res matches Err(
                ImageError::ImageEnd,
            )) <==> spec_image_truncated(self.spec_data(), self.spec_order(), off))),
            res is Err ==> ((res matches Err(ImageError::ImageEnd)) || (res matches Err(
                ImageError::FormatError(_),
            ))),
            res matches Ok(d) ==> {
                &&& d.inv()
                &&& d.spec_data() == self.spec_data()
                &&& d.spec_order() == self.spec_order()
                &&& self.spec_next_ifd() matches Some(off) && {
                    &&& d.spec_ifd() == Some(spec_ifd(self.spec_data(), self.spec_order(), off as int))
                    &&& d.spec_geometry() == spec_image_at(
                        self.spec_data(),
                        self.spec_order(),
                        off,
                    )->Some_0
                    &&& d.spec_next_ifd() == if spec_ifd_next(
                        self.spec_data(),
                        self.spec_order(),
                        off as int,
                    ) == 0 {
                        None
                    } else {
                        Some(spec_ifd_next(self.spec_data(), self.spec_order(), off as int))
                    }
                }
            },
    {
        let mut d = self;
        let order = d.byte_order;
        let off = match d.next_ifd {
            Some(o) => o,
            None => return Err(ImageError::ImageEnd),
        };
        let (dir, next) = match read_directory(&mut d.reader, off) {
            Ok(t) => t,
            Err(e) => return Err(e),
        };
        let width = match tag_value(&dir, order, Tag::ImageWidth.to_u16()) {
            Some(w) => w,
            None => return Err(ImageError::FormatError("image width missing".to_owned())),
        };
        let height = match tag_value(&dir, order, Tag::ImageLength.to_u16()) {
            Some(h) => h,
            None => return Err(ImageError::FormatError("image length missing".to_owned())),
        };
        let bits = match read_bits(&mut d.reader, &dir) {
            Ok(b) => b,
            Err(e) => return Err(e),
        };
        let samples = match dir.get(&Tag::SamplesPerPixel.to_u16()) {
            None => 1,
            Some(e) => match e.single_value(order) {
                Some(s) => s,
                None => return Err(ImageError::FormatError("malformed samples per pixel".to_owned())),
            },
        };
        d.width = width;
        d.height = height;
        d.bits_per_sample = bits;
        d.samples = samples;
        d.ifd = Some(dir);
        d.next_ifd = if next == 0 {
            None
        } else {
            Some(next)
        };
        Ok(d)
    }
}

} // verus!

verus! {

impl TIFFDecoder {
    /// Whether every sample is at most `limit` bits deep.
    fn bits_within(&self, limit: u16) -> (r: bool)
        ensures
            r == forall|i: int|
                0 <= i < self.spec_geometry().2.len() ==> self.spec_geometry().2[i] <= limit,
    {
        let mut k: usize = 0;
        while k < self.bits_per_sample.len()
            invariant
                k <= self.bits_per_sample@.len(),
                forall|i: int| 0 <= i < k ==> self.bits_per_sample@[i] <= limit,
            decreases self.bits_per_sample@.len() - k,
        {
            if self.bits_per_sample[k] > limit {
                assert(!(self.spec_geometry().2[k as int] <= limit));
                return false;
            }
            k = k + 1;
        }
        true
    }

    /// The sample width, in bits, of the decoded image: 8 or 16.
    fn sample_bits(&self) -> (r: Option<u8>)
        ensures
            r == spec_sample_bits(self.spec_geometry().2),
    {
        if self.bits_within(8) {
            Some(8)
        } else if self.bits_within(16) {
            Some(16)
        } else {
            None
        }
    }

    /// The layout and bit depth of the decoded samples.
    pub fn color_type(&self) -> (r: ImageResult<ColorType>)
        ensures
            r is Ok <==> spec_tiff_color(self.spec_geometry().2, self.spec_geometry().3) is Some,
            r matches Ok(c) ==> c == spec_tiff_color(
                self.spec_geometry().2,
                self.spec_geometry().3,
            )->Some_0,
            r is Err ==> r matches Err(ImageError::UnsupportedError(_)),
    {
        let depth = match self.sample_bits() {
            Some(d) => d,
            None => return Err(
                ImageError::UnsupportedError("more than 16 bits per sample".to_owned()),
            ),
        };
        if self.samples == 1 {
            Ok(ColorType::Gray(depth))
        } else if self.samples == 2 {
            Ok(ColorType::GrayA(depth))
        } else if self.samples == 3 {
            Ok(ColorType::RGB(depth))
        } else if self.samples == 4 {
            Ok(ColorType::RGBA(depth))
        } else {
            Err(ImageError::UnsupportedError("unsupported number of samples".to_owned()))
        }
    }

    /// The sample buffer of the current image: `width * height * planes`
    /// samples, one plane for each declared bits-per-sample value, in the
    /// narrowest width (8 or 16 bits) that covers every declared depth.
    /// The strips themselves are left to a codec: the samples are zero.
    pub fn read_samples(&self) -> (r: ImageResult<DecodingResult>)
        ensures
            ({
                let (w, h, bits, _) = self.spec_geometry();
                let size = w as nat * h as nat * bits.len();
                &&& spec_sample_bits(bits) is None ==> (r matches Err(ImageError::UnsupportedError(_)))
                &&& (spec_sample_bits(bits) is Some && size > usize::MAX) ==> (r matches Err(
                    ImageError::DimensionError,
                ))
                &&& (spec_sample_bits(bits) == Some(8u8) && size <= usize::MAX) ==> (r matches Ok(
                    DecodingResult::U8(v),
                ) && v@.len() == size)
                &&& (spec_sample_bits(bits) == Some(16u8) && size <= usize::MAX) ==> (r matches Ok(
                    DecodingResult::U16(v),
                ) && v@.len() == size)
            }),
    {
        let depth = match self.sample_bits() {
            Some(d) => d,
            None => return Err(
                ImageError::UnsupportedError("more than 16 bits per sample".to_owned()),
            ),
        };
        let planes = self.bits_per_sample.len();
        proof {
            assert(self.width as nat * self.height as nat <= 0xffff_ffff_ffff_ffff) by (nonlinear_arith);
            assert(self.width as nat * self.height as nat * planes <= 0xffff_ffff_ffff_ffff * 0xffff_ffff_ffff_ffff)
                by (nonlinear_arith)
                requires
                    self.width as nat * self.height as nat <= 0xffff_ffff_ffff_ffff,
                    planes <= 0xffff_ffff_ffff_ffff,
            ;
        }
        let size = (self.width as u128 * self.height as u128) * planes as u128;
        if size > usize::MAX as u128 {
            return Err(ImageError::DimensionError);
        }
        let size = size as usize;
        if depth == 8 {
            Ok(DecodingResult::U8(vec![0u8; size]))
        } else {
            Ok(DecodingResult::U16(vec![0u16; size]))
        }
    }
}

impl ImageDecoder for TIFFDecoder {
    open spec fn spec_dimensions(old: Self, new: Self, r: ImageResult<(u32, u32)>) -> bool {
        &&& (new == old)
        &&& (r == Ok::<(u32, u32), ImageError>((old.spec_geometry().0, old.spec_geometry().1)))
    }

    open spec fn spec_colortype(old: Self, new: Self, r: ImageResult<ColorType>) -> bool {
        &&& (r is Ok <==> spec_tiff_color(old.spec_geometry().2, old.spec_geometry().3) is Some)
        &&& (r matches Ok(c) ==> c == spec_tiff_color(
                old.spec_geometry().2,
                old.spec_geometry().3,
            )->Some_0)
        &&& (r is Err ==> r matches Err(ImageError::UnsupportedError(_)))
        &&& (new == old)
    }

    open spec fn spec_read_image(old: Self, new: Self, r: ImageResult<DecodingResult>) -> bool {
        &&& (({
                let (w, h, bits, _) = old.spec_geometry();
                let size = w as nat * h as nat * bits.len();
                &&& spec_sample_bits(bits) is None ==> (r matches Err(ImageError::UnsupportedError(_)))
                &&& (spec_sample_bits(bits) is Some && size > usize::MAX) ==> (r matches Err(
                    ImageError::DimensionError,
                ))
                &&& (spec_sample_bits(bits) == Some(8u8) && size <= usize::MAX) ==> (r matches Ok(
                    DecodingResult::U8(v),
                ) && v@.len() == size)
                &&& (spec_sample_bits(bits) == Some(16u8) && size <= usize::MAX) ==> (r matches Ok(
                    DecodingResult::U16(v),
                ) && v@.len() == size)
            }))
        &&& (new == old)
    }

    fn dimensions(&mut self) -> (r: ImageResult<(u32, u32)>) {
        Ok((self.width, self.height))
    }

    fn colortype(&mut self) -> (r: ImageResult<ColorType>) {
        self.color_type()
    }

    fn read_image(&mut self) -> (r: ImageResult<DecodingResult>) {
        self.read_samples()
    }
}

} // verus!
