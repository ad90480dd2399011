//! Byte-order-aware reading of a TIFF file held in memory.

use vstd::prelude::*;

use crate::image::{ImageError, ImageResult};

verus! {

broadcast use vstd::array::group_array_axioms;

/// Byte order of the TIFF file.
#[derive(Clone, Copy, Debug, PartialEq, Eq, Structural)]
pub enum ByteOrder {
    /// little endian byte order
    LittleEndian,
    /// big endian byte order
    BigEndian,
}

/// The 16-bit integer that the first two bytes of `b` encode in `order`.
pub open spec fn spec_u16(order: ByteOrder, b: Seq<u8>) -> u16 {
    match order {
        ByteOrder::LittleEndian => (b[0] as int + 256 * b[1] as int) as u16,
        ByteOrder::BigEndian => (256 * b[0] as int + b[1] as int) as u16,
    }
}

/// The 32-bit integer that the first four bytes of `b` encode in `order`.
pub open spec fn spec_u32(order: ByteOrder, b: Seq<u8>) -> u32 {
    match order {
        ByteOrder::LittleEndian => (b[0] as int + 256 * b[1] as int + 65536 * b[2] as int
            + 16777216 * b[3] as int) as u32,
        ByteOrder::BigEndian => (16777216 * b[0] as int + 65536 * b[1] as int + 256 * b[2] as int
            + b[3] as int) as u32,
    }
}

/// Relies on byteorder's `LittleEndian::read_u16`: the first two bytes of
/// `buf`, least significant first (it panics on fewer than two).
#[verifier::external_body]
fn read_u16_le(buf: &[u8]) -> (r: u16)
    requires
        buf@.len() >= 2,
    ensures
        r == spec_u16(ByteOrder::LittleEndian, buf@),
{
    <byteorder::LittleEndian as byteorder::ByteOrder>::read_u16(buf)
}

/// Relies on byteorder's `BigEndian::read_u16`: the first two bytes of `buf`,
/// most significant first (it panics on fewer than two).
#[verifier::external_body]
fn read_u16_be(buf: &[u8]) -> (r: u16)
    requires
        buf@.len() >= 2,
    ensures
        r == spec_u16(ByteOrder::BigEndian, buf@),
{
    <byteorder::BigEndian as byteorder::ByteOrder>::read_u16(buf)
}

/// Relies on byteorder's `LittleEndian::read_u32`: the first four bytes of
/// `buf`, least significant first (it panics on fewer than four).
#[verifier::external_body]
fn read_u32_le(buf: &[u8]) -> (r: u32)
    requires
        buf@.len() >= 4,
    ensures
        r == spec_u32(ByteOrder::LittleEndian, buf@),
{
    <byteorder::LittleEndian as byteorder::ByteOrder>::read_u32(buf)
}

/// Relies on byteorder's `BigEndian::read_u32`: the first four bytes of
/// `buf`, most significant first (it panics on fewer than four).
#[verifier::external_body]
fn read_u32_be(buf: &[u8]) -> (r: u32)
    requires
        buf@.len() >= 4,
    ensures
        r == spec_u32(ByteOrder::BigEndian, buf@),
{
    <byteorder::BigEndian as byteorder::ByteOrder>::read_u32(buf)
}

/// Decodes the first two bytes of `buf` in `order`.
pub fn decode_u16(order: ByteOrder, buf: &[u8]) -> (r: u16)
    requires
        buf@.len() >= 2,
    ensures
        r == spec_u16(order, buf@),
{
    match order {
        ByteOrder::LittleEndian => read_u16_le(buf),
        ByteOrder::BigEndian => read_u16_be(buf),
    }
}

/// Decodes the first four bytes of `buf` in `order`.
pub fn decode_u32(order: ByteOrder, buf: &[u8]) -> (r: u32)
    requires
        buf@.len() >= 4,
    ensures
        r == spec_u32(order, buf@),
{
    match order {
        ByteOrder::LittleEndian => read_u32_le(buf),
        ByteOrder::BigEndian => read_u32_be(buf),
    }
}

/// A cursor over the bytes of a file that reads integers in the file's byte
/// order.
pub struct EndianReader {
    data: Vec<u8>,
    pos: usize,
    byte_order: ByteOrder,
}

impl EndianReader {
    /// The bytes of the file.
    pub closed spec fn spec_data(&self) -> Seq<u8> {
        self.data@
    }

    /// The position of the next read.
    pub closed spec fn spec_pos(&self) -> int {
        self.pos as int
    }

    /// The position of the next read is never negative.
    pub proof fn lemma_pos(&self)
        ensures
            0 <= self.spec_pos(),
    {
    }

    /// The byte order of multi-byte reads.
    pub closed spec fn spec_order(&self) -> ByteOrder {
        self.byte_order
    }

    /// A reader at the start of `data`.
    pub fn new(data: Vec<u8>, byte_order: ByteOrder) -> (r: EndianReader)
        ensures
            r.spec_data() == data@,
            r.spec_pos() == 0,
            r.spec_order() == byte_order,
    {
        EndianReader { data, pos: 0, byte_order }
    }

    /// Byte order that reads adhere to.
    pub fn byte_order(&self) -> (r: ByteOrder)
        ensures
            r == self.spec_order(),
    {
        self.byte_order
    }

    /// Fixes the byte order of the reads that follow.
    pub fn set_byte_order(&mut self, byte_order: ByteOrder)
        ensures
            final(self).spec_data() == old(self).spec_data(),
            final(self).spec_pos() == old(self).spec_pos(),
            final(self).spec_order() == byte_order,
    {
        self.byte_order = byte_order;
    }

    /// The position of the next read.
    pub fn position(&self) -> (r: usize)
        ensures
            r == self.spec_pos(),
    {
        self.pos
    }

    /// Moves to `pos`, counted from the start of the file.
    pub fn seek(&mut self, pos: u32)
        ensures
            final(self).spec_data() == old(self).spec_data(),
            final(self).spec_pos() == pos,
            final(self).spec_order() == old(self).spec_order(),
    {
        self.pos = pos as usize;
    }

    /// Reads four raw bytes; at the end of the data, reports the end of the
    /// image and stays where it was.
    pub fn read_raw4(&mut self) -> (r: ImageResult<[u8; 4]>)
        ensures
            final(self).spec_data() == old(self).spec_data(),
            final(self).spec_order() == old(self).spec_order(),
            old(self).spec_pos() + 4 <= old(self).spec_data().len() ==> {
                &&& r matches Ok(v) && v@ == old(self).spec_data().subrange(
                    old(self).spec_pos(),
                    old(self).spec_pos() + 4,
                )
                &&& final(self).spec_pos() == old(self).spec_pos() + 4
            },
            old(self).spec_pos() + 4 > old(self).spec_data().len() ==> {
                &&& r matches Err(ImageError::ImageEnd)
                &&& final(self).spec_pos() == old(self).spec_pos()
            },
    {
        if self.pos > self.data.len() || 4 > self.data.len() - self.pos {
            return Err(ImageError::ImageEnd);
        }
        let p = self.pos;
        let v = [self.data[p], self.data[p + 1], self.data[p + 2], self.data[p + 3]];
        self.pos = p + 4;
        assert(v@ =~= self.data@.subrange(p as int, p + 4));
        Ok(v)
    }

    /// Reads a 16-bit integer in the reader's byte order; at the end of the
    /// data, reports the end of the image and stays where it was.
    pub fn read_u16(&mut self) -> (r: ImageResult<u16>)
        ensures
            final(self).spec_data() == old(self).spec_data(),
            final(self).spec_order() == old(self).spec_order(),
            old(self).spec_pos() + 2 <= old(self).spec_data().len() ==> {
                &&& r == Ok::<u16, ImageError>(
                    spec_u16(
                        old(self).spec_order(),
                        old(self).spec_data().subrange(
                            old(self).spec_pos(),
                            old(self).spec_pos() + 2,
                        ),
                    ),
                )
                &&& final(self).spec_pos() == old(self).spec_pos() + 2
            },
            old(self).spec_pos() + 2 > old(self).spec_data().len() ==> {
                &&& r matches Err(ImageError::ImageEnd)
                &&& final(self).spec_pos() == old(self).spec_pos()
            },
    {
        if self.pos > self.data.len() || 2 > self.data.len() - self.pos {
            return Err(ImageError::ImageEnd);
        }
        let s = vstd::slice::slice_subrange(self.data.as_slice(), self.pos, self.pos + 2);
        self.pos = self.pos + 2;
        Ok(decode_u16(self.byte_order, s))
    }

    /// Reads a 32-bit integer in the reader's byte order; at the end of the
    /// data, reports the end of the image and stays where it was.
    pub fn read_u32(&mut self) -> (r: ImageResult<u32>)
        ensures
            final(self).spec_data() == old(self).spec_data(),
            final(self).spec_order() == old(self).spec_order(),
            old(self).spec_pos() + 4 <= old(self).spec_data().len() ==> {
                &&& r == Ok::<u32, ImageError>(
                    spec_u32(
                        old(self).spec_order(),
                        old(self).spec_data().subrange(
                            old(self).spec_pos(),
                            old(self).spec_pos() + 4,
                        ),
                    ),
                )
                &&& final(self).spec_pos() == old(self).spec_pos() + 4
            },
            old(self).spec_pos() + 4 > old(self).spec_data().len() ==> {
                &&& r matches Err(ImageError::ImageEnd)
                &&& final(self).spec_pos() == old(self).spec_pos()
            },
    {
        if self.pos > self.data.len() || 4 > self.data.len() - self.pos {
            return Err(ImageError::ImageEnd);
        }
        let s = vstd::slice::slice_subrange(self.data.as_slice(), self.pos, self.pos + 4);
        self.pos = self.pos + 4;
        Ok(decode_u32(self.byte_order, s))
    }
}

} // verus!
