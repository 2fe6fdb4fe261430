//! A colour by its red, green and blue parts.

use vstd::prelude::*;

verus! {

/// A colour by its three parts.
#[derive(Copy, Clone, Debug, Default, Eq, PartialEq, Ord, PartialOrd, Hash)]
pub struct RGB<T> {
    /// Red
    pub r: T,
    /// Green
    pub g: T,
    /// Blue
    pub b: T,
}

impl<T> RGB<T> {
    /// Convenience function for creating a new pixel
    /// The order of arguments is R,G,B
    pub fn new(r: T, g: T, b: T) -> (c: Self)
        ensures
            c.r == r,
            c.g == g,
            c.b == b,
    {
        Self { r, g, b }
    }
}

} // verus!
