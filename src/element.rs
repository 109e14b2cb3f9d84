//! The element types that a tensor may hold, with the host's tag for each
//! and the bit pattern that stands for an element in the host's buffers.
use crate::codec::{lemma_pow256_widths, pow256};
use vstd::prelude::*;

verus! {

/// An element type of a host tensor.
///
/// Each element occupies `spec_width()` bytes of a tensor buffer, holding
/// `spec_bits(v)` least significant byte first.
pub trait TensorType: Sized + Clone {
    /// The host's tag for this element type.
    spec fn spec_val() -> u32;

    /// The number of bytes one element occupies.
    spec fn spec_width() -> nat;

    /// The bit pattern of `v`, as an unsigned number.
    spec fn spec_bits(v: Self) -> nat;

    /// The element whose bit pattern is `bits`.
    spec fn spec_from_bits(bits: nat) -> Self;

    /// Every element has a pattern that fits its width, and reads back as itself.
    proof fn lemma_layout()
        ensures
            1 <= Self::spec_width() <= 8,
            forall|v: Self| #[trigger] Self::spec_bits(v) < pow256(Self::spec_width()),
            forall|v: Self| Self::spec_from_bits(#[trigger] Self::spec_bits(v)) == v,
    ;

    /// The host's tag for this element type.
    fn val() -> (r: u32)
        ensures
            r == Self::spec_val(),
    ;

    /// The element whose bit pattern is all zeros.
    fn zero() -> (r: Self)
        ensures
            Self::spec_bits(r) == 0,
    ;

    /// The number of bytes one element occupies.
    fn width() -> (r: usize)
        ensures
            r == Self::spec_width(),
    ;

    /// The bit pattern of this element.
    fn to_bits(&self) -> (r: u64)
        ensures
            r == Self::spec_bits(*self),
    ;

    /// The element with the given bit pattern.
    fn from_bits(bits: u64) -> (r: Self)
        requires
            bits < pow256(Self::spec_width()),
        ensures
            r == Self::spec_from_bits(bits as nat),
    ;
}

/// A tensor element that the host reads as a 32-bit float, held as its
/// IEEE 754 bit pattern.
#[derive(Clone, Copy, Debug, PartialEq, Eq, Structural)]
pub struct F32Bits(pub u32);

/// A tensor element that the host reads as a 64-bit float, held as its
/// IEEE 754 bit pattern.
#[derive(Clone, Copy, Debug, PartialEq, Eq, Structural)]
pub struct F64Bits(pub u64);

impl TensorType for u8 {
    open spec fn spec_val() -> u32 {
        4
    }

    open spec fn spec_width() -> nat {
        1
    }

    open spec fn spec_bits(v: u8) -> nat {
        v as nat
    }

    open spec fn spec_from_bits(bits: nat) -> u8 {
        bits as u8
    }

    proof fn lemma_layout() {
        lemma_pow256_widths();
    }

    fn val() -> (r: u32) {
        4
    }

    fn zero() -> (r: u8) {
        0
    }

    fn width() -> (r: usize) {
        1
    }

    fn to_bits(&self) -> (r: u64) {
        *self as u64
    }

    fn from_bits(bits: u64) -> (r: u8) {
        proof {
            lemma_pow256_widths();
        }
        bits as u8
    }
}

impl TensorType for u16 {
    open spec fn spec_val() -> u32 {
        17
    }

    open spec fn spec_width() -> nat {
        2
    }

    open spec fn spec_bits(v: u16) -> nat {
        v as nat
    }

    open spec fn spec_from_bits(bits: nat) -> u16 {
        bits as u16
    }

    proof fn lemma_layout() {
        lemma_pow256_widths();
    }

    fn val() -> (r: u32) {
        17
    }

    fn zero() -> (r: u16) {
        0
    }

    fn width() -> (r: usize) {
        2
    }

    fn to_bits(&self) -> (r: u64) {
        *self as u64
    }

    fn from_bits(bits: u64) -> (r: u16) {
        proof {
            lemma_pow256_widths();
        }
        bits as u16
    }
}

impl TensorType for u32 {
    open spec fn spec_val() -> u32 {
        22
    }

    open spec fn spec_width() -> nat {
        4
    }

    open spec fn spec_bits(v: u32) -> nat {
        v as nat
    }

    open spec fn spec_from_bits(bits: nat) -> u32 {
        bits as u32
    }

    proof fn lemma_layout() {
        lemma_pow256_widths();
    }

    fn val() -> (r: u32) {
        22
    }

    fn zero() -> (r: u32) {
        0
    }

    fn width() -> (r: usize) {
        4
    }

    fn to_bits(&self) -> (r: u64) {
        *self as u64
    }

    fn from_bits(bits: u64) -> (r: u32) {
        proof {
            lemma_pow256_widths();
        }
        bits as u32
    }
}

impl TensorType for u64 {
    open spec fn spec_val() -> u32 {
        23
    }

    open spec fn spec_width() -> nat {
        8
    }

    open spec fn spec_bits(v: u64) -> nat {
        v as nat
    }

    open spec fn spec_from_bits(bits: nat) -> u64 {
        bits as u64
    }

    proof fn lemma_layout() {
        lemma_pow256_widths();
    }

    fn val() -> (r: u32) {
        23
    }

    fn zero() -> (r: u64) {
        0
    }

    fn width() -> (r: usize) {
        8
    }

    fn to_bits(&self) -> (r: u64) {
        *self as u64
    }

    fn from_bits(bits: u64) -> (r: u64) {
        proof {
            lemma_pow256_widths();
        }
        bits as u64
    }
}

impl TensorType for i8 {
    open spec fn spec_val() -> u32 {
        6
    }

    open spec fn spec_width() -> nat {
        1
    }

    /// Two's complement.
    open spec fn spec_bits(v: i8) -> nat {
        if v >= 0 {
            v as nat
        } else {
            (v + 0x100) as nat
        }
    }

    open spec fn spec_from_bits(bits: nat) -> i8 {
        if bits < 0x80 {
            bits as i8
        } else {
            (bits - 0x100) as i8
        }
    }

    proof fn lemma_layout() {
        lemma_pow256_widths();
    }

    fn val() -> (r: u32) {
        6
    }

    fn zero() -> (r: i8) {
        0
    }

    fn width() -> (r: usize) {
        1
    }

    fn to_bits(&self) -> (r: u64) {
        if *self >= 0 {
            *self as u64
        } else {
            (*self as i64 + 0x100) as u64
        }
    }

    fn from_bits(bits: u64) -> (r: i8) {
        proof {
            lemma_pow256_widths();
        }
        if bits < 0x80 {
            bits as i8
        } else {
            (bits as i64 - 0x100) as i8
        }
    }
}

impl TensorType for i16 {
    open spec fn spec_val() -> u32 {
        5
    }

    open spec fn spec_width() -> nat {
        2
    }

    /// Two's complement.
    open spec fn spec_bits(v: i16) -> nat {
        if v >= 0 {
            v as nat
        } else {
            (v + 0x1_0000) as nat
        }
    }

    open spec fn spec_from_bits(bits: nat) -> i16 {
        if bits < 0x8000 {
            bits as i16
        } else {
            (bits - 0x1_0000) as i16
        }
    }

    proof fn lemma_layout() {
        lemma_pow256_widths();
    }

    fn val() -> (r: u32) {
        5
    }

    fn zero() -> (r: i16) {
        0
    }

    fn width() -> (r: usize) {
        2
    }

    fn to_bits(&self) -> (r: u64) {
        if *self >= 0 {
            *self as u64
        } else {
            (*self as i64 + 0x1_0000) as u64
        }
    }

    fn from_bits(bits: u64) -> (r: i16) {
        proof {
            lemma_pow256_widths();
        }
        if bits < 0x8000 {
            bits as i16
        } else {
            (bits as i64 - 0x1_0000) as i16
        }
    }
}

impl TensorType for i32 {
    open spec fn spec_val() -> u32 {
        3
    }

    open spec fn spec_width() -> nat {
        4
    }

    /// Two's complement.
    open spec fn spec_bits(v: i32) -> nat {
        if v >= 0 {
            v as nat
        } else {
            (v + 0x1_0000_0000) as nat
        }
    }

    open spec fn spec_from_bits(bits: nat) -> i32 {
        if bits < 0x8000_0000 {
            bits as i32
        } else {
            (bits - 0x1_0000_0000) as i32
        }
    }

    proof fn lemma_layout() {
        lemma_pow256_widths();
    }

    fn val() -> (r: u32) {
        3
    }

    fn zero() -> (r: i32) {
        0
    }

    fn width() -> (r: usize) {
        4
    }

    fn to_bits(&self) -> (r: u64) {
        if *self >= 0 {
            *self as u64
        } else {
            (*self as i64 + 0x1_0000_0000) as u64
        }
    }

    fn from_bits(bits: u64) -> (r: i32) {
        proof {
            lemma_pow256_widths();
        }
        if bits < 0x8000_0000 {
            bits as i32
        } else {
            (bits as i64 - 0x1_0000_0000) as i32
        }
    }
}

impl TensorType for i64 {
    open spec fn spec_val() -> u32 {
        9
    }

    open spec fn spec_width() -> nat {
        8
    }

    /// Two's complement.
    open spec fn spec_bits(v: i64) -> nat {
        if v >= 0 {
            v as nat
        } else {
            (v + 0x1_0000_0000_0000_0000) as nat
        }
    }

    open spec fn spec_from_bits(bits: nat) -> i64 {
        if bits < 0x8000_0000_0000_0000 {
            bits as i64
        } else {
            (bits - 0x1_0000_0000_0000_0000) as i64
        }
    }

    proof fn lemma_layout() {
        lemma_pow256_widths();
    }

    fn val() -> (r: u32) {
        9
    }

    fn zero() -> (r: i64) {
        0
    }

    fn width() -> (r: usize) {
        8
    }

    fn to_bits(&self) -> (r: u64) {
        if *self >= 0 {
            *self as u64
        } else {
            u64::MAX - (-(*self + 1)) as u64
        }
    }

    fn from_bits(bits: u64) -> (r: i64) {
        if bits < 0x8000_0000_0000_0000 {
            bits as i64
        } else {
            -((u64::MAX - bits) as i64) - 1
        }
    }
}

/// `false` is the byte `0` and `true` the byte `1`; the host's bytes other
/// than `0` read as `true`.
impl TensorType for bool {
    open spec fn spec_val() -> u32 {
        10
    }

    open spec fn spec_width() -> nat {
        1
    }

    open spec fn spec_bits(v: bool) -> nat {
        if v {
            1
        } else {
            0
        }
    }

    open spec fn spec_from_bits(bits: nat) -> bool {
        bits != 0
    }

    proof fn lemma_layout() {
        lemma_pow256_widths();
    }

    fn val() -> (r: u32) {
        10
    }

    fn zero() -> (r: bool) {
        false
    }

    fn width() -> (r: usize) {
        1
    }

    fn to_bits(&self) -> (r: u64) {
        if *self {
            1
        } else {
            0
        }
    }

    fn from_bits(bits: u64) -> (r: bool) {
        bits != 0
    }
}

impl TensorType for F32Bits {
    open spec fn spec_val() -> u32 {
        1
    }

    open spec fn spec_width() -> nat {
        4
    }

    open spec fn spec_bits(v: F32Bits) -> nat {
        v.0 as nat
    }

    open spec fn spec_from_bits(bits: nat) -> F32Bits {
        F32Bits(bits as u32)
    }

    proof fn lemma_layout() {
        lemma_pow256_widths();
    }

    fn val() -> (r: u32) {
        1
    }

    fn zero() -> (r: F32Bits) {
        F32Bits(0)
    }

    fn width() -> (r: usize) {
        4
    }

    fn to_bits(&self) -> (r: u64) {
        self.0 as u64
    }

    fn from_bits(bits: u64) -> (r: F32Bits) {
        proof {
            lemma_pow256_widths();
        }
        F32Bits(bits as u32)
    }
}

impl TensorType for F64Bits {
    open spec fn spec_val() -> u32 {
        2
    }

    open spec fn spec_width() -> nat {
        8
    }

    open spec fn spec_bits(v: F64Bits) -> nat {
        v.0 as nat
    }

    open spec fn spec_from_bits(bits: nat) -> F64Bits {
        F64Bits(bits as u64)
    }

    proof fn lemma_layout() {
        lemma_pow256_widths();
    }

    fn val() -> (r: u32) {
        2
    }

    fn zero() -> (r: F64Bits) {
        F64Bits(0)
    }

    fn width() -> (r: usize) {
        8
    }

    fn to_bits(&self) -> (r: u64) {
        self.0 as u64
    }

    fn from_bits(bits: u64) -> (r: F64Bits) {
        proof {
            lemma_pow256_widths();
        }
        F64Bits(bits as u64)
    }
}

} // verus!
