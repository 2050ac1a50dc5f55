//! The sides of an axis-aligned box given by its centre and its size, for
//! keeping one box inside another. Half sizes round toward zero; arithmetic on
//! coordinates wraps on overflow, as elsewhere.
use vstd::prelude::*;
use crate::transform::quotient;
use crate::vertex2::Vertex2;

verus! {

/// A box: its centre and its size.
#[derive(Debug, Clone, Copy, PartialEq, Eq, Structural)]
pub struct Dimensions {
    position: Vertex2<i32>,
    width: i32,
    height: i32,
}

impl Dimensions {
    pub closed spec fn spec_position(&self) -> Vertex2<i32> {
        self.position
    }

    pub closed spec fn spec_width(&self) -> i32 {
        self.width
    }

    pub closed spec fn spec_height(&self) -> i32 {
        self.height
    }

    pub fn new(position: Vertex2<i32>, width: i32, height: i32) -> (r: Self)
        ensures
            r.spec_position() == position,
            r.spec_width() == width,
            r.spec_height() == height,
    {
        Dimensions { position, width, height }
    }

    pub fn half_width(&self) -> (r: i32)
        ensures
            r == quotient(self.spec_width(), 2),
    {
        self.width / 2
    }

    pub fn half_height(&self) -> (r: i32)
        ensures
            r == quotient(self.spec_height(), 2),
    {
        self.height / 2
    }

    /// The `x` of the left side.
    pub fn left(&self) -> (r: i32)
        ensures
            r == self.spec_position().x.wrapping_sub(quotient(self.spec_width(), 2)),
    {
        self.position.x.wrapping_sub(self.half_width())
    }

    /// The `x` of the right side.
    pub fn right(&self) -> (r: i32)
        ensures
            r == self.spec_position().x.wrapping_add(quotient(self.spec_width(), 2)),
    {
        self.position.x.wrapping_add(self.half_width())
    }

    /// The `y` of the top side.
    pub fn top(&self) -> (r: i32)
        ensures
            r == self.spec_position().y.wrapping_sub(quotient(self.spec_height(), 2)),
    {
        self.position.y.wrapping_sub(self.half_height())
    }

    /// The `y` of the bottom side.
    pub fn bottom(&self) -> (r: i32)
        ensures
            r == self.spec_position().y.wrapping_add(quotient(self.spec_height(), 2)),
    {
        self.position.y.wrapping_add(self.half_height())
    }
}

} // verus!
