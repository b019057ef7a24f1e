//! Integer points of view space and their arithmetic.

use vstd::prelude::*;
use vstd::std_specs::ops::AddSpecImpl;
use vstd::std_specs::ops::SubSpecImpl;

verus! {

/// A position or displacement in whole view-space units.
#[derive(Debug, Clone, Copy, PartialEq, Eq, Structural)]
pub struct Point {
    pub x: i32,
    pub y: i32,
}

/// The mathematical pair of integers that a `Point` stands for.
pub struct Vector {
    pub x: int,
    pub y: int,
}

impl Vector {
    /// Component-wise sum.
    pub open spec fn plus(self, other: Vector) -> Vector {
        Vector { x: self.x + other.x, y: self.y + other.y }
    }

    /// Component-wise difference.
    pub open spec fn minus(self, other: Vector) -> Vector {
        Vector { x: self.x - other.x, y: self.y - other.y }
    }

    /// The displacement that undoes this one.
    pub open spec fn negated(self) -> Vector {
        Vector { x: -self.x, y: -self.y }
    }

    /// Whether both coordinates can be held by a `Point`.
    pub open spec fn fits(self) -> bool {
        i32::MIN <= self.x <= i32::MAX && i32::MIN <= self.y <= i32::MAX
    }
}

impl View for Point {
    type V = Vector;

    open spec fn view(&self) -> Vector {
        Vector { x: self.x as int, y: self.y as int }
    }
}

impl Point {
    /// Whether `self + other` can be computed without leaving the range of `i32`.
    pub fn can_add(self, other: Point) -> (ok: bool)
        ensures
            ok == self@.plus(other@).fits(),
    {
        self.x.checked_add(other.x).is_some() && self.y.checked_add(other.y).is_some()
    }

    /// Whether `self - other` can be computed without leaving the range of `i32`.
    pub fn can_sub(self, other: Point) -> (ok: bool)
        ensures
            ok == self@.minus(other@).fits(),
    {
        self.x.checked_sub(other.x).is_some() && self.y.checked_sub(other.y).is_some()
    }
}

impl core::ops::Add for Point {
    type Output = Point;

    /// Component-wise sum; the sum of each axis has to fit in an `i32`.
    fn add(self, other: Point) -> (sum: Point) {
        Point { x: self.x + other.x, y: self.y + other.y }
    }
}

impl AddSpecImpl for Point {
    open spec fn obeys_add_spec() -> bool {
        true
    }

    open spec fn add_req(self, other: Point) -> bool {
        self@.plus(other@).fits()
    }

    open spec fn add_spec(self, other: Point) -> Point {
        Point { x: (self.x + other.x) as i32, y: (self.y + other.y) as i32 }
    }
}

impl core::ops::Sub for Point {
    type Output = Point;

    /// Component-wise difference; the difference of each axis has to fit in an `i32`.
    fn sub(self, other: Point) -> (difference: Point) {
        Point { x: self.x - other.x, y: self.y - other.y }
    }
}

impl SubSpecImpl for Point {
    open spec fn obeys_sub_spec() -> bool {
        true
    }

    open spec fn sub_req(self, other: Point) -> bool {
        self@.minus(other@).fits()
    }

    open spec fn sub_spec(self, other: Point) -> Point {
        Point { x: (self.x - other.x) as i32, y: (self.y - other.y) as i32 }
    }
}

/// Adding a displacement and then subtracting it again gives back the starting point, and so
/// does adding the negated displacement.
pub proof fn lemma_plus_minus_cancel(p: Vector, d: Vector)
    ensures
        p.plus(d).minus(d) == p,
        p.plus(d).plus(d.negated()) == p,
        p.minus(d).plus(d) == p,
{
}

} // verus!
