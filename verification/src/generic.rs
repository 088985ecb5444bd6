//! Small generic data types and a generic comparison.

use vstd::prelude::*;
use vstd::std_specs::cmp::PartialOrdSpec;
use core::cmp::Ordering;

verus! {

/// Tells whether the first value compares strictly less than the second.
pub fn smallest<T: PartialOrd>(one: T, two: T) -> (less: bool)
    ensures
        T::obeys_partial_cmp_spec() ==> (less <==> one.partial_cmp_spec(&two) == Some(
            Ordering::Less,
        )),
{
    one.lt(&two)
}

/// A rectangle whose two dimensions share one type.
#[derive(Debug)]
pub struct Rectangle<T> {
    pub height: T,
    pub width: T,
}

/// A triangle whose base and height may have different types.
#[derive(Debug)]
pub struct Triangle<T, U> {
    pub base: T,
    pub height: U,
}

impl Triangle<isize, isize> {
    /// The base, by reference.
    pub fn base(&self) -> (r: &isize)
        ensures
            *r == self.base,
    {
        &self.base
    }

    /// The height, by reference.
    pub fn height(&self) -> (r: &isize)
        ensures
            *r == self.height,
    {
        &self.height
    }
}

/// One of the primary colors, carrying a payload.
#[derive(Debug)]
pub enum PrimaryColors<T> {
    Yellow(T),
    Blue(T),
    Red(T),
}

} // verus!
