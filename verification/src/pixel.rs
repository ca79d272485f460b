//! Pixel component types.

use vstd::prelude::*;

verus! {

/// Gray pixel with alpha.
#[derive(Clone, Copy, Debug, PartialEq, Eq, Hash)]
pub struct GrayAlpha<T> {
    /// Gray value.
    pub v: T,
    /// Alpha value.
    pub a: T,
}

impl<T> GrayAlpha<T> {
    /// A gray and alpha pair.
    pub fn new(v: T, a: T) -> (r: Self)
        ensures
            r.v == v,
            r.a == a,
    {
        GrayAlpha { v, a }
    }
}

} // verus!
