//! Marker type for the elementwise composition routine over numeric arrays.
//! The routine itself combines floating-point arrays and therefore lives
//! with the unverified callers; only the constructor is part of this crate.

use vstd::prelude::*;

verus! {

/// Handle for composing elementwise arithmetic over numeric arrays.
pub struct Comp {}

impl Comp {
    /// Builds a fresh handle.
    pub fn new() -> (c: Self)
        ensures
            c == (Comp {}),
    {
        Comp {}
    }
}

} // verus!
