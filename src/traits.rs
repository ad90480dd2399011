//! Numeric types that can be the samples of a pixel.

use vstd::prelude::*;

verus! {

/// An unsigned integer type that pixels hold their samples in.
pub trait Primitive: Copy + Sized + core::fmt::Debug {
    /// The sample as an integer.
    spec fn spec_value(self) -> nat;

    /// The largest sample.
    spec fn spec_max() -> nat;

    /// The width of a sample in bits.
    spec fn spec_bits() -> u8;

    /// The sample whose value is `v`, for `v` up to the largest sample.
    spec fn spec_from(v: nat) -> Self;

    /// Samples lie between zero and the largest sample.
    proof fn lemma_range(s: Self)
        ensures
            s.spec_value() <= Self::spec_max(),
    ;

    /// The largest sample is positive and fits in 16 bits.
    proof fn lemma_max()
        ensures
            1 <= Self::spec_max() <= 65535,
    ;

    /// A sample is determined by its value.
    proof fn lemma_injective(a: Self, b: Self)
        ensures
            a.spec_value() == b.spec_value() ==> a == b,
    ;

    /// `spec_from` gives the sample of the value asked for.
    proof fn lemma_from(v: nat)
        requires
            v <= Self::spec_max(),
        ensures
            Self::spec_from(v).spec_value() == v,
    ;

    /// The width of a sample in bits.
    fn bits() -> (r: u8)
        ensures
            r == Self::spec_bits(),
    ;

    /// The largest sample, as an integer.
    fn max_value() -> (r: u64)
        ensures
            r == Self::spec_max(),
    ;

    /// The sample as an integer.
    fn to_u64(self) -> (r: u64)
        ensures
            r == self.spec_value(),
    ;

    /// The sample whose value is `v`.
    fn from_u64(v: u64) -> (r: Self)
        requires
            v <= Self::spec_max(),
        ensures
            r == Self::spec_from(v as nat),
            r.spec_value() == v,
    ;
}

impl Primitive for u8 {
    open spec fn spec_value(self) -> nat {
        self as nat
    }

    open spec fn spec_max() -> nat {
        255
    }

    open spec fn spec_bits() -> u8 {
        8
    }

    open spec fn spec_from(v: nat) -> u8 {
        v as u8
    }

    proof fn lemma_range(s: u8) {
    }

    proof fn lemma_max() {
    }

    proof fn lemma_injective(a: u8, b: u8) {
    }

    proof fn lemma_from(v: nat) {
    }

    fn bits() -> (r: u8) {
        8
    }

    fn max_value() -> (r: u64) {
        255
    }

    fn to_u64(self) -> (r: u64) {
        self as u64
    }

    fn from_u64(v: u64) -> (r: u8) {
        v as u8
    }
}

impl Primitive for u16 {
    open spec fn spec_value(self) -> nat {
        self as nat
    }

    open spec fn spec_max() -> nat {
        65535
    }

    open spec fn spec_bits() -> u8 {
        16
    }

    open spec fn spec_from(v: nat) -> u16 {
        v as u16
    }

    proof fn lemma_range(s: u16) {
    }

    proof fn lemma_max() {
    }

    proof fn lemma_injective(a: u16, b: u16) {
    }

    proof fn lemma_from(v: nat) {
    }

    fn bits() -> (r: u8) {
        16
    }

    fn max_value() -> (r: u64) {
        65535
    }

    fn to_u64(self) -> (r: u64) {
        self as u64
    }

    fn from_u64(v: u64) -> (r: u16) {
        v as u16
    }
}

} // verus!
