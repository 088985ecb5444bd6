//! A closed set of shapes behind one capability trait.
//!
//! Every shape computes its area by a variant-specific formula and reports
//! itself in words; the report has a generic provided text that a variant
//! may override with a more specific one.

use vstd::prelude::*;

verus! {

/// Halving that truncates toward zero, as machine division does.
pub open spec fn half_toward_zero(p: int) -> int {
    if p >= 0 {
        p / 2
    } else {
        -((-p) / 2)
    }
}

/// The generic report text that `Shape::describe` emits when a variant
/// does not override it.
pub open spec fn generic_report() -> Seq<char> {
    "default called"@
}

/// The specialized report text of a triangle.
pub open spec fn triangle_report() -> Seq<char> {
    "Triangle default called."@
}

/// The capability set every shape offers: an area and a textual report.
pub trait Shape {
    /// Dimensions small enough that the area computation cannot overflow.
    spec fn wf(&self) -> bool;

    /// The value `area` returns, as a mathematical integer.
    spec fn area_spec(&self) -> int;

    /// Computes the shape's area by its variant-specific formula.
    fn area(&self) -> (r: isize)
        requires
            self.wf(),
        ensures
            r as int == self.area_spec(),
    ;

    /// Reports the shape in words. The provided implementation emits the
    /// generic report; a variant may override it.
    fn describe(&self) -> (r: &'static str)
        default_ensures
            r@ == generic_report(),
    {
        "default called"
    }
}

/// A triangle, held by its base and height.
pub struct Triangle {
    pub base: isize,
    pub height: isize,
}

/// A square, held by its side length.
pub struct Square {
    pub side: isize,
}

impl Shape for Triangle {
    open spec fn wf(&self) -> bool {
        isize::MIN <= self.base * self.height <= isize::MAX
    }

    /// Half the product of base and height, truncated toward zero.
    open spec fn area_spec(&self) -> int {
        half_toward_zero(self.base * self.height)
    }

    fn area(&self) -> (r: isize) {
        let p: isize = self.base * self.height;
        p / 2
    }

    /// A triangle overrides the generic report with its own.
    fn describe(&self) -> (r: &'static str)
        ensures
            r@ == triangle_report(),
    {
        "Triangle default called."
    }
}

impl Shape for Square {
    open spec fn wf(&self) -> bool {
        self.side * self.side <= isize::MAX
    }

    /// The side, squared.
    open spec fn area_spec(&self) -> int {
        self.side * self.side
    }

    fn area(&self) -> (r: isize) {
        proof {
            assert(self.side * self.side >= 0) by (nonlinear_arith);
        }
        self.side * self.side
    }
}

/// Reports the area of any shape, taken behind the capability set.
/// The result is the same as through `get_area_long`: both are pinned
/// to `area_spec`, whatever the dispatch mechanism.
pub fn get_area(shape: &impl Shape) -> (r: isize)
    requires
        shape.wf(),
    ensures
        r as int == shape.area_spec(),
{
    shape.area()
}

/// The same operation with the type parameter written out.
pub fn get_area_long<T: Shape>(shape: &T) -> (r: isize)
    requires
        shape.wf(),
    ensures
        r as int == shape.area_spec(),
{
    shape.area()
}

/// Returns one concrete variant behind the uniform capability set.
pub fn return_area() -> (s: impl Shape)
    ensures
        s.wf(),
        s.area_spec() == 225,
{
    Square { side: 15 }
}

/// The override takes precedence: a triangle's report is its own text,
/// not the generic one.
pub proof fn lemma_triangle_report_is_specialized()
    ensures
        triangle_report() != generic_report(),
{
    reveal_strlit("default called");
    reveal_strlit("Triangle default called.");
    assert(generic_report().len() == 14);
    assert(triangle_report().len() == 24);
}

} // verus!
