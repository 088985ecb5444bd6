//! A pair of two same-typed values with a comparison-driven report.
//!
//! The pair wraps two values of one orderable type and reports which
//! member is the largest; the first member wins ties.

use vstd::prelude::*;
use vstd::std_specs::cmp::PartialOrdSpec;
use core::cmp::Ordering;

verus! {

/// Two values of one type. Both fields are always fully initialized;
/// that they share a type is enforced by the signature of `new`.
pub struct Pair<T> {
    pub x: T,
    pub y: T,
}

/// Which member of a pair a comparison singled out.
#[derive(Clone, Copy, Debug, PartialEq, Eq, Structural)]
pub enum Member {
    X,
    Y,
}

/// The member that `cmp_display` reports as the largest: `x` whenever
/// the comparison finds `x` greater than or equal to `y`, else `y`.
pub open spec fn largest_member<T: PartialOrd>(p: Pair<T>) -> Member {
    if p.x.partial_cmp_spec(&p.y) matches Some(Ordering::Greater | Ordering::Equal) {
        Member::X
    } else {
        Member::Y
    }
}

impl<T> Pair<T> {
    /// Wraps two values. Always succeeds; no constraint beyond the
    /// shared type.
    pub fn new(x: T, y: T) -> (p: Pair<T>)
        ensures
            p.x == x,
            p.y == y,
    {
        Pair { x, y }
    }
}

impl<T: PartialOrd> Pair<T> {
    /// Reports the largest member. Equality resolves to `x`: the
    /// comparison is `>=`, not `>`.
    pub fn cmp_display(&self) -> (m: Member)
        ensures
            T::obeys_partial_cmp_spec() ==> m == largest_member(*self),
    {
        if self.x.ge(&self.y) {
            Member::X
        } else {
            Member::Y
        }
    }
}

/// Ties favor the first operand: when the comparison finds the members
/// equal, the pair reports `x`.
pub proof fn lemma_tie_favors_x<T: PartialOrd>(p: Pair<T>)
    requires
        p.x.partial_cmp_spec(&p.y) == Some(Ordering::Equal),
    ensures
        largest_member(p) == Member::X,
{
}

/// A member the comparison finds greater is the one reported: `x` when
/// `x` compares greater than `y`, and `y` when it compares less.
pub proof fn lemma_largest_wins<T: PartialOrd>(p: Pair<T>)
    ensures
        p.x.partial_cmp_spec(&p.y) == Some(Ordering::Greater) ==> largest_member(p) == Member::X,
        p.x.partial_cmp_spec(&p.y) == Some(Ordering::Less) ==> largest_member(p) == Member::Y,
{
}

/// Over machine integers the report follows the values themselves:
/// equal values report `x`, and otherwise the larger value's member.
pub proof fn lemma_isize_report(p: Pair<isize>)
    ensures
        p.x == p.y ==> largest_member(p) == Member::X,
        p.x > p.y ==> largest_member(p) == Member::X,
        p.x < p.y ==> largest_member(p) == Member::Y,
{
}

} // verus!
