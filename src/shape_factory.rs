//! Vertex lists for common shapes, centred on the origin: the left side of a
//! shape has negative `x`, the top side negative `y`. A half size rounds toward
//! zero, so an odd size loses its last unit.
use vstd::prelude::*;
use crate::transform::quotient;
use crate::vertex2::Vertex2;

verus! {

/// The corners of a `width` by `height` rectangle: top left, top right, bottom
/// right, bottom left.
pub open spec fn rectangle_vertices(width: i32, height: i32) -> Seq<Vertex2<i32>> {
    let hw = quotient(width, 2);
    let hh = quotient(height, 2);
    seq![
        Vertex2 { x: -hw as i32, y: -hh as i32 },
        Vertex2 { x: hw, y: -hh as i32 },
        Vertex2 { x: hw, y: hh },
        Vertex2 { x: -hw as i32, y: hh },
    ]
}

/// The corners of a rectangle, in winding order from the top left corner.
pub fn rectangle(width: i32, height: i32) -> (r: Vec<Vertex2<i32>>)
    ensures
        r@ == rectangle_vertices(width, height),
{
    let hw = width / 2;
    let hh = height / 2;
    assert(hw == quotient(width, 2));
    assert(hh == quotient(height, 2));
    let left = -hw;
    let top = -hh;
    let r = vec![
        Vertex2::new(left, top),
        Vertex2::new(hw, top),
        Vertex2::new(hw, hh),
        Vertex2::new(left, hh),
    ];
    assert(r@ =~= rectangle_vertices(width, height));
    r
}

/// The corners of a square: the rectangle with equal sides.
pub fn square(size: i32) -> (r: Vec<Vertex2<i32>>)
    ensures
        r@ == rectangle_vertices(size, size),
{
    rectangle(size, size)
}

} // verus!
