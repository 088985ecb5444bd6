//! Functions that hand back references into their inputs.

use vstd::prelude::*;

verus! {

/// Returns a reference to the larger of the two integers; the second
/// wins ties.
pub fn largest_int<'a>(x: &'a i32, y: &'a i32) -> (r: &'a i32)
    ensures
        *r == (if *x > *y {
            *x
        } else {
            *y
        }),
{
    if *x > *y {
        x
    } else {
        y
    }
}

/// Hands its one reference parameter straight back.
pub fn single_param(x: &i32) -> (r: &i32)
    ensures
        r == x,
{
    x
}

/// Two moods, one of which a measurement picks.
pub struct World {
    pub happy: bool,
    pub sad: bool,
}

impl World {
    /// Picks the happy mood above a happiness of five, the sad one
    /// otherwise, by reference into `self`.
    pub fn winner(&self, happiness: &i32) -> (r: &bool)
        ensures
            *r == (if *happiness > 5 {
                self.happy
            } else {
                self.sad
            }),
    {
        if *happiness > 5 {
            &self.happy
        } else {
            &self.sad
        }
    }
}

/// Borrows a string for as long as its owner lives.
pub struct MyStuff<'a> {
    pub my_str: &'a str,
}

impl<'a> MyStuff<'a> {
    /// A fixed sadness score.
    pub fn sad(&self) -> (r: i32)
        ensures
            r == 3,
    {
        3
    }
}

} // verus!
