//! Tags, entries and directories of a TIFF file.

use vstd::prelude::*;

use std::collections::HashMap;

use crate::tiff::stream::{spec_u16, spec_u32, ByteOrder};

verus! {

/// TIFF tag.
#[derive(Clone, Copy, PartialEq, Eq, Debug, Hash, Structural)]
pub enum Tag {
    /// Number of columns of the image
    ImageWidth,
    /// Number of rows of the image
    ImageLength,
    /// Bits in each sample of a pixel
    BitsPerSample,
    /// Samples in each pixel
    SamplesPerPixel,
    /// Person who created the image
    Artist,
    /// A tag this library does not know, with its code
    Unknown(u16),
}

impl Tag {
    /// The tag with code `n`.
    pub open spec fn spec_from_u16(n: u16) -> Tag {
        if n == 256 {
            Tag::ImageWidth
        } else if n == 257 {
            Tag::ImageLength
        } else if n == 258 {
            Tag::BitsPerSample
        } else if n == 277 {
            Tag::SamplesPerPixel
        } else if n == 315 {
            Tag::Artist
        } else {
            Tag::Unknown(n)
        }
    }

    /// The code of this tag.
    pub open spec fn spec_to_u16(self) -> u16 {
        match self {
            Tag::ImageWidth => 256,
            Tag::ImageLength => 257,
            Tag::BitsPerSample => 258,
            Tag::SamplesPerPixel => 277,
            Tag::Artist => 315,
            Tag::Unknown(n) => n,
        }
    }

    /// The tag with code `n`.
    pub fn from_u16(n: u16) -> (r: Tag)
        ensures
            r == Tag::spec_from_u16(n),
    {
        if n == 256 {
            Tag::ImageWidth
        } else if n == 257 {
            Tag::ImageLength
        } else if n == 258 {
            Tag::BitsPerSample
        } else if n == 277 {
            Tag::SamplesPerPixel
        } else if n == 315 {
            Tag::Artist
        } else {
            Tag::Unknown(n)
        }
    }

    /// The code of this tag.
    pub fn to_u16(self) -> (r: u16)
        ensures
            r == self.spec_to_u16(),
    {
        match self {
            Tag::ImageWidth => 256,
            Tag::ImageLength => 257,
            Tag::BitsPerSample => 258,
            Tag::SamplesPerPixel => 277,
            Tag::Artist => 315,
            Tag::Unknown(n) => n,
        }
    }
}

/// Any tag code read into a tag gives that code back, unknown codes included.
pub proof fn lemma_tag_code_round_trip(n: u16)
    ensures
        Tag::spec_from_u16(n).spec_to_u16() == n,
{
}

/// Field type of an entry.
#[derive(Clone, Copy, Debug, PartialEq, Eq, Structural)]
pub enum Type {
    /// 8-bit unsigned integer
    BYTE,
    /// 7-bit ASCII code, NUL-terminated
    ASCII,
    /// 16-bit unsigned integer
    SHORT,
    /// 32-bit unsigned integer
    LONG,
    /// Two LONGs: a numerator and a denominator
    RATIONAL,
}

impl Type {
    /// The field type with code `n`, if there is one.
    pub open spec fn spec_from_u16(n: u16) -> Option<Type> {
        if n == 1 {
            Some(Type::BYTE)
        } else if n == 2 {
            Some(Type::ASCII)
        } else if n == 3 {
            Some(Type::SHORT)
        } else if n == 4 {
            Some(Type::LONG)
        } else if n == 5 {
            Some(Type::RATIONAL)
        } else {
            None
        }
    }

    /// The field type with code `n`, if there is one.
    pub fn from_u16(n: u16) -> (r: Option<Type>)
        ensures
            r == Type::spec_from_u16(n),
    {
        if n == 1 {
            Some(Type::BYTE)
        } else if n == 2 {
            Some(Type::ASCII)
        } else if n == 3 {
            Some(Type::SHORT)
        } else if n == 4 {
            Some(Type::LONG)
        } else if n == 5 {
            Some(Type::RATIONAL)
        } else {
            None
        }
    }
}

/// An entry of a directory: the field type, the number of values and four
/// bytes that hold the values when they fit, else their offset in the file.
#[derive(Clone, Copy, Debug)]
pub struct Entry {
    /// Field type of the values
    pub type_: Type,
    /// Number of values
    pub count: u32,
    /// The values, or the offset of the values
    pub offset: [u8; 4],
}

/// The single SHORT or LONG value of an entry, if it holds one.
pub open spec fn spec_single_value(order: ByteOrder, e: Entry) -> Option<u32> {
    if e.count == 1 && e.type_ == Type::SHORT {
        Some(spec_u16(order, e.offset@) as u32)
    } else if e.count == 1 && e.type_ == Type::LONG {
        Some(spec_u32(order, e.offset@))
    } else {
        None
    }
}

impl Entry {
    /// The single SHORT or LONG value of this entry, if it holds one.
    pub fn single_value(&self, order: ByteOrder) -> (r: Option<u32>)
        ensures
            r == spec_single_value(order, *self),
    {
        if self.count == 1 && self.type_ == Type::SHORT {
            Some(crate::tiff::stream::decode_u16(order, self.offset.as_slice()) as u32)
        } else if self.count == 1 && self.type_ == Type::LONG {
            Some(crate::tiff::stream::decode_u32(order, self.offset.as_slice()))
        } else {
            None
        }
    }
}

/// Type representing an Image File Directory, keyed by tag code.
pub type Directory = HashMap<u16, Entry>;

} // verus!
