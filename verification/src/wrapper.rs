//! Sentinel encodings for composite and owning types.
//!
//! An `Option` reserves `None`. A `Vec` reserves the empty vector. An owning
//! wrapper (`Box`, `Rc`, `Arc`) derives its sentinel from the contained type:
//! its sentinel is a freshly constructed wrapper around the contained type's
//! sentinel, and its test delegates to the contained value's test. A half-open
//! range reserves the range both of whose endpoints are the contained type's
//! sentinel.
use crate::Null;
use core::ops::Range;
use std::rc::Rc;
use std::sync::Arc;
use vstd::prelude::*;

verus! {

impl<T> Null for Option<T> {
    open spec fn obeys_null_spec() -> bool {
        true
    }

    open spec fn spec_is_null(&self) -> bool {
        self.is_none()
    }

    fn null() -> (r: Self) {
        None
    }

    fn is_null(&self) -> (r: bool) {
        match self {
            Some(_) => false,
            None => true,
        }
    }
}

impl<T: Null> Null for Box<T> {
    open spec fn obeys_null_spec() -> bool {
        T::obeys_null_spec()
    }

    open spec fn spec_is_null(&self) -> bool {
        (**self).spec_is_null()
    }

    fn null() -> (r: Self) {
        Box::new(T::null())
    }

    fn is_null(&self) -> (r: bool) {
        (&**self).is_null()
    }
}

impl<T: Null> Null for Rc<T> {
    open spec fn obeys_null_spec() -> bool {
        T::obeys_null_spec()
    }

    open spec fn spec_is_null(&self) -> bool {
        (**self).spec_is_null()
    }

    fn null() -> (r: Self) {
        Rc::new(T::null())
    }

    fn is_null(&self) -> (r: bool) {
        (&**self).is_null()
    }
}

impl<T: Null> Null for Arc<T> {
    open spec fn obeys_null_spec() -> bool {
        T::obeys_null_spec()
    }

    open spec fn spec_is_null(&self) -> bool {
        (**self).spec_is_null()
    }

    fn null() -> (r: Self) {
        Arc::new(T::null())
    }

    fn is_null(&self) -> (r: bool) {
        (&**self).is_null()
    }
}

impl<T> Null for Vec<T> {
    open spec fn obeys_null_spec() -> bool {
        true
    }

    open spec fn spec_is_null(&self) -> bool {
        self@.len() == 0
    }

    fn null() -> (r: Self) {
        Vec::new()
    }

    fn is_null(&self) -> (r: bool) {
        self.len() == 0
    }
}

impl<T: Null> Null for Range<T> {
    open spec fn obeys_null_spec() -> bool {
        T::obeys_null_spec()
    }

    open spec fn spec_is_null(&self) -> bool {
        self.start.spec_is_null() && self.end.spec_is_null()
    }

    fn null() -> (r: Self) {
        Range { start: T::null(), end: T::null() }
    }

    fn is_null(&self) -> (r: bool) {
        self.start.is_null() && self.end.is_null()
    }
}

/// Delegation law: boxing a value does not change the sentinel test.
pub fn boxed_is_null_matches_inner<T: Null>(v: T) -> (r: bool)
    ensures
        T::obeys_null_spec() ==> r == v.spec_is_null(),
{
    let b: Box<T> = Box::new(v);
    b.is_null()
}

/// Delegation law: moving a value behind a reference count does not change
/// the sentinel test.
pub fn shared_is_null_matches_inner<T: Null>(v: T) -> (r: bool)
    ensures
        T::obeys_null_spec() ==> r == v.spec_is_null(),
{
    let s: Rc<T> = Rc::new(v);
    s.is_null()
}

/// Delegation law: moving a value behind an atomically reference-counted
/// wrapper does not change the sentinel test.
pub fn sync_shared_is_null_matches_inner<T: Null>(v: T) -> (r: bool)
    ensures
        T::obeys_null_spec() ==> r == v.spec_is_null(),
{
    let s: Arc<T> = Arc::new(v);
    s.is_null()
}

/// Range law: a range is the sentinel exactly when both of its endpoints are,
/// so a range with only one sentinel endpoint is not the sentinel.
pub fn range_is_null_matches_endpoints<T: Null>(start: T, end: T) -> (r: bool)
    ensures
        T::obeys_null_spec() ==> r == (start.spec_is_null() && end.spec_is_null()),
{
    let rg = Range { start, end };
    rg.is_null()
}

} // verus!
