//! Sentinel encodings for the primitive scalar types.
//!
//! Unsigned integers reserve their maximum value (all bits set), the least
//! likely legitimate value in counting and indexing use. Signed integers
//! reserve their minimum value (sign bit set, all else clear), mirroring the
//! unsigned choice under two's complement. `bool` reserves `false`, giving up
//! the ability to store a real `false`: a deliberate trade-off, safe only when
//! the consuming structure never needs one.
use crate::Null;
use vstd::prelude::*;

verus! {

impl Null for usize {
    open spec fn obeys_null_spec() -> bool {
        true
    }

    open spec fn spec_is_null(&self) -> bool {
        *self == usize::MAX
    }

    fn null() -> (r: Self) {
        usize::MAX
    }

    fn is_null(&self) -> (r: bool) {
        *self == usize::MAX
    }
}

impl Null for isize {
    open spec fn obeys_null_spec() -> bool {
        true
    }

    open spec fn spec_is_null(&self) -> bool {
        *self == isize::MIN
    }

    fn null() -> (r: Self) {
        isize::MIN
    }

    fn is_null(&self) -> (r: bool) {
        *self == isize::MIN
    }
}

impl Null for bool {
    open spec fn obeys_null_spec() -> bool {
        true
    }

    open spec fn spec_is_null(&self) -> bool {
        *self == false
    }

    fn null() -> (r: Self) {
        false
    }

    fn is_null(&self) -> (r: bool) {
        !*self
    }
}

impl Null for u8 {
    open spec fn obeys_null_spec() -> bool {
        true
    }

    open spec fn spec_is_null(&self) -> bool {
        *self == u8::MAX
    }

    fn null() -> (r: Self) {
        u8::MAX
    }

    fn is_null(&self) -> (r: bool) {
        *self == u8::MAX
    }
}

impl Null for i8 {
    open spec fn obeys_null_spec() -> bool {
        true
    }

    open spec fn spec_is_null(&self) -> bool {
        *self == i8::MIN
    }

    fn null() -> (r: Self) {
        i8::MIN
    }

    fn is_null(&self) -> (r: bool) {
        *self == i8::MIN
    }
}

impl Null for u16 {
    open spec fn obeys_null_spec() -> bool {
        true
    }

    open spec fn spec_is_null(&self) -> bool {
        *self == u16::MAX
    }

    fn null() -> (r: Self) {
        u16::MAX
    }

    fn is_null(&self) -> (r: bool) {
        *self == u16::MAX
    }
}

impl Null for i16 {
    open spec fn obeys_null_spec() -> bool {
        true
    }

    open spec fn spec_is_null(&self) -> bool {
        *self == i16::MIN
    }

    fn null() -> (r: Self) {
        i16::MIN
    }

    fn is_null(&self) -> (r: bool) {
        *self == i16::MIN
    }
}

impl Null for u32 {
    open spec fn obeys_null_spec() -> bool {
        true
    }

    open spec fn spec_is_null(&self) -> bool {
        *self == u32::MAX
    }

    fn null() -> (r: Self) {
        u32::MAX
    }

    fn is_null(&self) -> (r: bool) {
        *self == u32::MAX
    }
}

impl Null for i32 {
    open spec fn obeys_null_spec() -> bool {
        true
    }

    open spec fn spec_is_null(&self) -> bool {
        *self == i32::MIN
    }

    fn null() -> (r: Self) {
        i32::MIN
    }

    fn is_null(&self) -> (r: bool) {
        *self == i32::MIN
    }
}

impl Null for u64 {
    open spec fn obeys_null_spec() -> bool {
        true
    }

    open spec fn spec_is_null(&self) -> bool {
        *self == u64::MAX
    }

    fn null() -> (r: Self) {
        u64::MAX
    }

    fn is_null(&self) -> (r: bool) {
        *self == u64::MAX
    }
}

impl Null for i64 {
    open spec fn obeys_null_spec() -> bool {
        true
    }

    open spec fn spec_is_null(&self) -> bool {
        *self == i64::MIN
    }

    fn null() -> (r: Self) {
        i64::MIN
    }

    fn is_null(&self) -> (r: bool) {
        *self == i64::MIN
    }
}

impl Null for u128 {
    open spec fn obeys_null_spec() -> bool {
        true
    }

    open spec fn spec_is_null(&self) -> bool {
        *self == u128::MAX
    }

    fn null() -> (r: Self) {
        u128::MAX
    }

    fn is_null(&self) -> (r: bool) {
        *self == u128::MAX
    }
}

impl Null for i128 {
    open spec fn obeys_null_spec() -> bool {
        true
    }

    open spec fn spec_is_null(&self) -> bool {
        *self == i128::MIN
    }

    fn null() -> (r: Self) {
        i128::MIN
    }

    fn is_null(&self) -> (r: bool) {
        *self == i128::MIN
    }
}

} // verus!
