//! The conversions of the primitive types.
//!
//! A single byte has no byte order: `u8`, `i8` and `bool` are left as they
//! are by every conversion. A wider integer keeps its value where the format is
//! the machine's own and has its bytes reversed where it is not.

use vstd::prelude::*;
use crate::convert::{Conforming, Endify};
use crate::order::ByteOrder;
use crate::swap::{
    lemma_swap128_twice, lemma_swap16_twice, lemma_swap32_twice, lemma_swap64_twice,
    lemma_swap_signed128_twice, lemma_swap_signed16_twice, lemma_swap_signed32_twice,
    lemma_swap_signed64_twice, swap128, swap16, swap32, swap64, swap_i128, swap_i16, swap_i32,
    swap_i64, swap_signed128, swap_signed16, swap_signed32, swap_signed64, swap_u128, swap_u16,
    swap_u32, swap_u64,
};

verus! {

impl Endify for u8 {
    open spec fn swapped(self) -> Self {
        self
    }

    fn to_le(self) -> (r: Self)
        ensures
            r == self,
    {
        self
    }

    fn to_be(self) -> (r: Self)
        ensures
            r == self,
    {
        self
    }

    fn from_le(self) -> (r: Self)
        ensures
            r == self,
    {
        self
    }

    fn from_be(self) -> (r: Self)
        ensures
            r == self,
    {
        self
    }
}

impl Conforming for u8 {
    proof fn swapped_twice(self) {
    }
}

impl Endify for i8 {
    open spec fn swapped(self) -> Self {
        self
    }

    fn to_le(self) -> (r: Self)
        ensures
            r == self,
    {
        self
    }

    fn to_be(self) -> (r: Self)
        ensures
            r == self,
    {
        self
    }

    fn from_le(self) -> (r: Self)
        ensures
            r == self,
    {
        self
    }

    fn from_be(self) -> (r: Self)
        ensures
            r == self,
    {
        self
    }
}

impl Conforming for i8 {
    proof fn swapped_twice(self) {
    }
}

impl Endify for bool {
    open spec fn swapped(self) -> Self {
        self
    }

    fn to_le(self) -> (r: Self)
        ensures
            r == self,
    {
        self
    }

    fn to_be(self) -> (r: Self)
        ensures
            r == self,
    {
        self
    }

    fn from_le(self) -> (r: Self)
        ensures
            r == self,
    {
        self
    }

    fn from_be(self) -> (r: Self)
        ensures
            r == self,
    {
        self
    }
}

impl Conforming for bool {
    proof fn swapped_twice(self) {
    }
}

impl Endify for u16 {
    open spec fn swapped(self) -> Self {
        swap16(self)
    }

    fn to_le(self) -> (r: Self) {
        match ByteOrder::native() {
            ByteOrder::Little => self,
            ByteOrder::Big => swap_u16(self),
        }
    }

    fn to_be(self) -> (r: Self) {
        match ByteOrder::native() {
            ByteOrder::Little => swap_u16(self),
            ByteOrder::Big => self,
        }
    }

    fn from_le(self) -> (r: Self) {
        match ByteOrder::native() {
            ByteOrder::Little => self,
            ByteOrder::Big => swap_u16(self),
        }
    }

    fn from_be(self) -> (r: Self) {
        match ByteOrder::native() {
            ByteOrder::Little => swap_u16(self),
            ByteOrder::Big => self,
        }
    }
}

impl Conforming for u16 {
    proof fn swapped_twice(self) {
        lemma_swap16_twice(self);
    }
}

impl Endify for i16 {
    open spec fn swapped(self) -> Self {
        swap_signed16(self)
    }

    fn to_le(self) -> (r: Self) {
        match ByteOrder::native() {
            ByteOrder::Little => self,
            ByteOrder::Big => swap_i16(self),
        }
    }

    fn to_be(self) -> (r: Self) {
        match ByteOrder::native() {
            ByteOrder::Little => swap_i16(self),
            ByteOrder::Big => self,
        }
    }

    fn from_le(self) -> (r: Self) {
        match ByteOrder::native() {
            ByteOrder::Little => self,
            ByteOrder::Big => swap_i16(self),
        }
    }

    fn from_be(self) -> (r: Self) {
        match ByteOrder::native() {
            ByteOrder::Little => swap_i16(self),
            ByteOrder::Big => self,
        }
    }
}

impl Conforming for i16 {
    proof fn swapped_twice(self) {
        lemma_swap_signed16_twice(self);
    }
}

impl Endify for u32 {
    open spec fn swapped(self) -> Self {
        swap32(self)
    }

    fn to_le(self) -> (r: Self) {
        match ByteOrder::native() {
            ByteOrder::Little => self,
            ByteOrder::Big => swap_u32(self),
        }
    }

    fn to_be(self) -> (r: Self) {
        match ByteOrder::native() {
            ByteOrder::Little => swap_u32(self),
            ByteOrder::Big => self,
        }
    }

    fn from_le(self) -> (r: Self) {
        match ByteOrder::native() {
            ByteOrder::Little => self,
            ByteOrder::Big => swap_u32(self),
        }
    }

    fn from_be(self) -> (r: Self) {
        match ByteOrder::native() {
            ByteOrder::Little => swap_u32(self),
            ByteOrder::Big => self,
        }
    }
}

impl Conforming for u32 {
    proof fn swapped_twice(self) {
        lemma_swap32_twice(self);
    }
}

impl Endify for i32 {
    open spec fn swapped(self) -> Self {
        swap_signed32(self)
    }

    fn to_le(self) -> (r: Self) {
        match ByteOrder::native() {
            ByteOrder::Little => self,
            ByteOrder::Big => swap_i32(self),
        }
    }

    fn to_be(self) -> (r: Self) {
        match ByteOrder::native() {
            ByteOrder::Little => swap_i32(self),
            ByteOrder::Big => self,
        }
    }

    fn from_le(self) -> (r: Self) {
        match ByteOrder::native() {
            ByteOrder::Little => self,
            ByteOrder::Big => swap_i32(self),
        }
    }

    fn from_be(self) -> (r: Self) {
        match ByteOrder::native() {
            ByteOrder::Little => swap_i32(self),
            ByteOrder::Big => self,
        }
    }
}

impl Conforming for i32 {
    proof fn swapped_twice(self) {
        lemma_swap_signed32_twice(self);
    }
}

impl Endify for u64 {
    open spec fn swapped(self) -> Self {
        swap64(self)
    }

    fn to_le(self) -> (r: Self) {
        match ByteOrder::native() {
            ByteOrder::Little => self,
            ByteOrder::Big => swap_u64(self),
        }
    }

    fn to_be(self) -> (r: Self) {
        match ByteOrder::native() {
            ByteOrder::Little => swap_u64(self),
            ByteOrder::Big => self,
        }
    }

    fn from_le(self) -> (r: Self) {
        match ByteOrder::native() {
            ByteOrder::Little => self,
            ByteOrder::Big => swap_u64(self),
        }
    }

    fn from_be(self) -> (r: Self) {
        match ByteOrder::native() {
            ByteOrder::Little => swap_u64(self),
            ByteOrder::Big => self,
        }
    }
}

impl Conforming for u64 {
    proof fn swapped_twice(self) {
        lemma_swap64_twice(self);
    }
}

impl Endify for i64 {
    open spec fn swapped(self) -> Self {
        swap_signed64(self)
    }

    fn to_le(self) -> (r: Self) {
        match ByteOrder::native() {
            ByteOrder::Little => self,
            ByteOrder::Big => swap_i64(self),
        }
    }

    fn to_be(self) -> (r: Self) {
        match ByteOrder::native() {
            ByteOrder::Little => swap_i64(self),
            ByteOrder::Big => self,
        }
    }

    fn from_le(self) -> (r: Self) {
        match ByteOrder::native() {
            ByteOrder::Little => self,
            ByteOrder::Big => swap_i64(self),
        }
    }

    fn from_be(self) -> (r: Self) {
        match ByteOrder::native() {
            ByteOrder::Little => swap_i64(self),
            ByteOrder::Big => self,
        }
    }
}

impl Conforming for i64 {
    proof fn swapped_twice(self) {
        lemma_swap_signed64_twice(self);
    }
}

impl Endify for u128 {
    open spec fn swapped(self) -> Self {
        swap128(self)
    }

    fn to_le(self) -> (r: Self) {
        match ByteOrder::native() {
            ByteOrder::Little => self,
            ByteOrder::Big => swap_u128(self),
        }
    }

    fn to_be(self) -> (r: Self) {
        match ByteOrder::native() {
            ByteOrder::Little => swap_u128(self),
            ByteOrder::Big => self,
        }
    }

    fn from_le(self) -> (r: Self) {
        match ByteOrder::native() {
            ByteOrder::Little => self,
            ByteOrder::Big => swap_u128(self),
        }
    }

    fn from_be(self) -> (r: Self) {
        match ByteOrder::native() {
            ByteOrder::Little => swap_u128(self),
            ByteOrder::Big => self,
        }
    }
}

impl Conforming for u128 {
    proof fn swapped_twice(self) {
        lemma_swap128_twice(self);
    }
}

impl Endify for i128 {
    open spec fn swapped(self) -> Self {
        swap_signed128(self)
    }

    fn to_le(self) -> (r: Self) {
        match ByteOrder::native() {
            ByteOrder::Little => self,
            ByteOrder::Big => swap_i128(self),
        }
    }

    fn to_be(self) -> (r: Self) {
        match ByteOrder::native() {
            ByteOrder::Little => swap_i128(self),
            ByteOrder::Big => self,
        }
    }

    fn from_le(self) -> (r: Self) {
        match ByteOrder::native() {
            ByteOrder::Little => self,
            ByteOrder::Big => swap_i128(self),
        }
    }

    fn from_be(self) -> (r: Self) {
        match ByteOrder::native() {
            ByteOrder::Little => swap_i128(self),
            ByteOrder::Big => self,
        }
    }
}

impl Conforming for i128 {
    proof fn swapped_twice(self) {
        lemma_swap_signed128_twice(self);
    }
}

/// A single byte and a boolean are the same in every format.
pub proof fn lemma_single_byte_unchanged(b: u8, i: i8, f: bool, from: ByteOrder, to: ByteOrder)
    ensures
        crate::convert::convert(b, from, to) == b,
        crate::convert::convert(i, from, to) == i,
        crate::convert::convert(f, from, to) == f,
{
}

} // verus!
