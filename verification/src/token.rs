//! Sentinel encodings for type-identity tokens and possibly-uninitialized
//! storage.
//!
//! A type-identity token reserves the token of the unit type, the type that
//! carries no information; the test is identity equality against that token.
//!
//! Possibly-uninitialized storage is the degenerate case of the contract: a
//! value of it can never be proven present, so its test is the constant true.
use crate::Null;
use core::any::TypeId;
use core::mem::MaybeUninit;
use vstd::prelude::*;
use vstd::raw_ptr::MemContents;
use vstd::std_specs::maybe_uninit::MaybeUninitAdditionalSpecFns;

verus! {

#[verifier::external_type_specification]
#[verifier::external_body]
pub struct ExTypeId(TypeId);

/// Whether a type-identity token is the token of the unit type `()`.
///
/// Tokens are opaque: nothing of this predicate is stated beyond what the two
/// trusted functions below say of their results.
pub uninterp spec fn is_unit_type_id(t: TypeId) -> bool;

/// Relies on `core::any::TypeId::of::<()>`: it returns the unique identity
/// token of the unit type.
#[verifier::external_body]
fn unit_type_id() -> (r: TypeId)
    ensures
        is_unit_type_id(r),
{
    TypeId::of::<()>()
}

/// Relies on `core::any::TypeId`'s equality: two tokens compare equal exactly
/// when they identify the same type, so comparing against the unit type's
/// token decides whether `t` is that token.
#[verifier::external_body]
fn type_id_is_unit(t: &TypeId) -> (r: bool)
    ensures
        r == is_unit_type_id(*t),
{
    *t == TypeId::of::<()>()
}

impl Null for TypeId {
    open spec fn obeys_null_spec() -> bool {
        true
    }

    open spec fn spec_is_null(&self) -> bool {
        is_unit_type_id(*self)
    }

    fn null() -> (r: Self) {
        unit_type_id()
    }

    fn is_null(&self) -> (r: bool) {
        type_id_is_unit(self)
    }
}

/// Degenerate implementation: possibly-uninitialized storage can never be
/// proven present, so every value tests as the sentinel and `is_null` is the
/// constant true.
impl<T> Null for MaybeUninit<T> {
    open spec fn obeys_null_spec() -> bool {
        true
    }

    open spec fn spec_is_null(&self) -> bool {
        true
    }

    fn null() -> (r: Self)
        ensures
            r.mem_contents() == MemContents::<T>::Uninit,
    {
        MaybeUninit::uninit()
    }

    fn is_null(&self) -> (r: bool) {
        true
    }
}

} // verus!
