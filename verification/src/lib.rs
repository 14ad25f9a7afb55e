//! An in-band "absent value" contract: a type reserves one bit pattern (or a
//! small family of patterns) of itself to mean "no value present", so that a
//! slot-based container can mark an empty slot without a separate presence
//! flag.
use vstd::prelude::*;

pub mod atomic;
pub mod scalar;
pub mod text;
pub mod token;
pub mod wrapper;

verus! {

/// The sentinel contract.
///
/// A type implementing `Null` reserves a value of itself as its sentinel:
/// [`Null::null`] produces that value and [`Null::is_null`] tests for it.
///
/// [`Null::spec_is_null`] says, at the specification level, which values count
/// as the sentinel. For most implementations the sentinel test is a pure
/// function of the value and [`Null::obeys_null_spec`] holds, making the
/// contracts of `null` and `is_null` exact. The atomic implementations read a
/// shared cell whose contents a specification cannot pin down, so for them
/// `obeys_null_spec` is false and the contracts say nothing of the value.
pub trait Null: Sized {
    /// Whether the sentinel test is a pure function of the tested value, so
    /// that the contracts of `null` and `is_null` are exact.
    spec fn obeys_null_spec() -> bool;

    /// Which values of this type count as the sentinel.
    spec fn spec_is_null(&self) -> bool;

    /// Produces the canonical sentinel value.
    fn null() -> (r: Self)
        ensures
            Self::obeys_null_spec() ==> r.spec_is_null(),
    ;

    /// Tests whether a value is the sentinel. Pure: the argument is only read.
    fn is_null(&self) -> (r: bool)
        ensures
            Self::obeys_null_spec() ==> r == self.spec_is_null(),
    ;
}

/// Round-trip law: for every implementation whose test obeys its
/// specification, producing the sentinel and testing it yields true.
pub fn null_round_trip<T: Null>() -> (r: bool)
    ensures
        T::obeys_null_spec() ==> r,
{
    let v = T::null();
    v.is_null()
}

} // verus!
