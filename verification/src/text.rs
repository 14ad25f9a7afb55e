//! Sentinel encodings for string-like types.
//!
//! Text reserves the empty sequence: an absent string and an empty string are
//! indistinguishable under this contract — a deliberate, lossy trade-off.
use crate::Null;
use vstd::prelude::*;

verus! {

impl Null for &str {
    open spec fn obeys_null_spec() -> bool {
        true
    }

    open spec fn spec_is_null(&self) -> bool {
        self@.len() == 0
    }

    fn null() -> (r: Self) {
        let r = "";
        proof {
            reveal_strlit("");
        }
        r
    }

    fn is_null(&self) -> (r: bool) {
        self.is_empty()
    }
}

impl Null for String {
    open spec fn obeys_null_spec() -> bool {
        true
    }

    open spec fn spec_is_null(&self) -> bool {
        self@.len() == 0
    }

    fn null() -> (r: Self) {
        String::new()
    }

    fn is_null(&self) -> (r: bool) {
        self.as_str().is_empty()
    }
}

} // verus!
