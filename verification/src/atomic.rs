//! Sentinel encodings for the atomic counterparts of the scalar types.
//!
//! Each atomic reserves the same bit pattern as its non-atomic counterpart.
//! `null` performs one ordinary initialization, meant for construction time
//! before the cell is shared; `is_null` performs a single relaxed load, so the
//! contract gives no cross-thread ordering and a reader may observe a stale
//! value relative to a concurrent store made elsewhere.
//!
//! vstd deliberately says nothing of the value inside a shared atomic cell: a
//! relaxed load is not a pure function of the cell, since another thread may
//! store between two loads. The sentinel test of an atomic therefore cannot be
//! pinned by a specification, and these implementations set
//! [`Null::obeys_null_spec`](crate::Null::obeys_null_spec) to false: the trait
//! contracts claim nothing of their results.
use crate::Null;
use core::sync::atomic::{
    AtomicBool, AtomicI16, AtomicI32, AtomicI64, AtomicI8, AtomicIsize, AtomicU16, AtomicU32,
    AtomicU64, AtomicU8, AtomicUsize, Ordering,
};
use vstd::pervasive::arbitrary;
use vstd::prelude::*;

verus! {

impl Null for AtomicUsize {
    open spec fn obeys_null_spec() -> bool {
        false
    }

    open spec fn spec_is_null(&self) -> bool {
        arbitrary()
    }

    fn null() -> (r: Self) {
        AtomicUsize::new(usize::MAX)
    }

    fn is_null(&self) -> (r: bool) {
        self.load(Ordering::Relaxed) == usize::MAX
    }
}

impl Null for AtomicIsize {
    open spec fn obeys_null_spec() -> bool {
        false
    }

    open spec fn spec_is_null(&self) -> bool {
        arbitrary()
    }

    fn null() -> (r: Self) {
        AtomicIsize::new(isize::MIN)
    }

    fn is_null(&self) -> (r: bool) {
        self.load(Ordering::Relaxed) == isize::MIN
    }
}

impl Null for AtomicBool {
    open spec fn obeys_null_spec() -> bool {
        false
    }

    open spec fn spec_is_null(&self) -> bool {
        arbitrary()
    }

    fn null() -> (r: Self) {
        AtomicBool::new(false)
    }

    fn is_null(&self) -> (r: bool) {
        !self.load(Ordering::Relaxed)
    }
}

impl Null for AtomicU8 {
    open spec fn obeys_null_spec() -> bool {
        false
    }

    open spec fn spec_is_null(&self) -> bool {
        arbitrary()
    }

    fn null() -> (r: Self) {
        AtomicU8::new(u8::MAX)
    }

    fn is_null(&self) -> (r: bool) {
        self.load(Ordering::Relaxed) == u8::MAX
    }
}

impl Null for AtomicI8 {
    open spec fn obeys_null_spec() -> bool {
        false
    }

    open spec fn spec_is_null(&self) -> bool {
        arbitrary()
    }

    fn null() -> (r: Self) {
        AtomicI8::new(i8::MIN)
    }

    fn is_null(&self) -> (r: bool) {
        self.load(Ordering::Relaxed) == i8::MIN
    }
}

impl Null for AtomicU16 {
    open spec fn obeys_null_spec() -> bool {
        false
    }

    open spec fn spec_is_null(&self) -> bool {
        arbitrary()
    }

    fn null() -> (r: Self) {
        AtomicU16::new(u16::MAX)
    }

    fn is_null(&self) -> (r: bool) {
        self.load(Ordering::Relaxed) == u16::MAX
    }
}

impl Null for AtomicI16 {
    open spec fn obeys_null_spec() -> bool {
        false
    }

    open spec fn spec_is_null(&self) -> bool {
        arbitrary()
    }

    fn null() -> (r: Self) {
        AtomicI16::new(i16::MIN)
    }

    fn is_null(&self) -> (r: bool) {
        self.load(Ordering::Relaxed) == i16::MIN
    }
}

impl Null for AtomicU32 {
    open spec fn obeys_null_spec() -> bool {
        false
    }

    open spec fn spec_is_null(&self) -> bool {
        arbitrary()
    }

    fn null() -> (r: Self) {
        AtomicU32::new(u32::MAX)
    }

    fn is_null(&self) -> (r: bool) {
        self.load(Ordering::Relaxed) == u32::MAX
    }
}

impl Null for AtomicI32 {
    open spec fn obeys_null_spec() -> bool {
        false
    }

    open spec fn spec_is_null(&self) -> bool {
        arbitrary()
    }

    fn null() -> (r: Self) {
        AtomicI32::new(i32::MIN)
    }

    fn is_null(&self) -> (r: bool) {
        self.load(Ordering::Relaxed) == i32::MIN
    }
}

impl Null for AtomicU64 {
    open spec fn obeys_null_spec() -> bool {
        false
    }

    open spec fn spec_is_null(&self) -> bool {
        arbitrary()
    }

    fn null() -> (r: Self) {
        AtomicU64::new(u64::MAX)
    }

    fn is_null(&self) -> (r: bool) {
        self.load(Ordering::Relaxed) == u64::MAX
    }
}

impl Null for AtomicI64 {
    open spec fn obeys_null_spec() -> bool {
        false
    }

    open spec fn spec_is_null(&self) -> bool {
        arbitrary()
    }

    fn null() -> (r: Self) {
        AtomicI64::new(i64::MIN)
    }

    fn is_null(&self) -> (r: bool) {
        self.load(Ordering::Relaxed) == i64::MIN
    }
}

} // verus!
