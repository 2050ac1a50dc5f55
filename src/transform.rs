//! Position and scale of a component, relative to its parent.
//!
//! Coordinates are whole canvas units held in `i32`; arithmetic on them wraps
//! on overflow. Two transforms compose by adding positions and multiplying
//! scales: an axis-aligned translation and scaling, with no rotation. The
//! composition is not commutative in general and is not a group action.
use vstd::prelude::*;
use std::ops::{Add, Sub};
use vstd::std_specs::ops::{AddSpecImpl, SubSpecImpl};
use crate::vertex2::Vertex2;

verus! {

/// Where a component stands and how large it is drawn, relative to its parent.
#[derive(Debug, Clone, Copy, PartialEq, Eq, Structural)]
pub struct Transform {
    pub position: Vertex2<i32>,
    pub scale: Vertex2<i32>,
}

/// Wrapping division that rounds toward zero, as `i32::wrapping_div` does.
pub open spec fn quotient(a: i32, b: i32) -> i32 {
    match a.checked_div(b) {
        Some(q) => q,
        None => a,
    }
}

/// The transform of a child, given in its parent's space, expressed in the space
/// above the parent.
pub open spec fn compose(parent: Transform, child: Transform) -> Transform {
    Transform {
        position: Vertex2 {
            x: parent.position.x.wrapping_add(child.position.x),
            y: parent.position.y.wrapping_add(child.position.y),
        },
        scale: Vertex2 {
            x: parent.scale.x.wrapping_mul(child.scale.x),
            y: parent.scale.y.wrapping_mul(child.scale.y),
        },
    }
}

/// The inverse step of `compose`: `absolute` expressed in the space of `parent`.
pub open spec fn decompose(absolute: Transform, parent: Transform) -> Transform {
    Transform {
        position: Vertex2 {
            x: absolute.position.x.wrapping_sub(parent.position.x),
            y: absolute.position.y.wrapping_sub(parent.position.y),
        },
        scale: Vertex2 {
            x: quotient(absolute.scale.x, parent.scale.x),
            y: quotient(absolute.scale.y, parent.scale.y),
        },
    }
}

/// The transform that changes nothing: at the origin, with scale one.
pub open spec fn identity() -> Transform {
    Transform { position: Vertex2 { x: 0, y: 0 }, scale: Vertex2 { x: 1, y: 1 } }
}

/// Where a vertex given in the space of `t` lands: scaled, then moved.
pub open spec fn apply(v: Vertex2<i32>, t: Transform) -> Vertex2<i32> {
    Vertex2 {
        x: v.x.wrapping_mul(t.scale.x).wrapping_add(t.position.x),
        y: v.y.wrapping_mul(t.scale.y).wrapping_add(t.position.y),
    }
}

/// Both scale components are nonzero, so that a transform can be divided out.
pub open spec fn invertible(t: Transform) -> bool {
    t.scale.x != 0 && t.scale.y != 0
}

fn wrapping_quotient(a: i32, b: i32) -> (r: i32)
    requires
        b != 0,
    ensures
        r == quotient(a, b),
{
    match a.checked_div(b) {
        Some(q) => q,
        None => a,
    }
}

impl Transform {
    /// A transform at `position`, with scale one.
    pub fn from_position(position: Vertex2<i32>) -> (r: Transform)
        ensures
            r.position == position,
            r.scale == identity().scale,
    {
        Transform { position, scale: Vertex2::new(1, 1) }
    }

    /// `child`, given in the space of `parent`, expressed in the space above the parent.
    pub fn compose(parent: &Transform, child: &Transform) -> (r: Transform)
        ensures
            r == compose(*parent, *child),
    {
        Transform {
            position: Vertex2::new(
                parent.position.x.wrapping_add(child.position.x),
                parent.position.y.wrapping_add(child.position.y),
            ),
            scale: Vertex2::new(
                parent.scale.x.wrapping_mul(child.scale.x),
                parent.scale.y.wrapping_mul(child.scale.y),
            ),
        }
    }

    /// This transform, given relative to a parent whose absolute transform is
    /// `parent`, as an absolute transform.
    pub fn absolute(&self, parent: &Transform) -> (r: Transform)
        ensures
            r == compose(*parent, *self),
    {
        Transform::compose(parent, self)
    }

    /// Makes this transform, given relative to a parent whose absolute transform is
    /// `parent`, stand for the absolute transform `absolute`.
    pub fn set_absolute(&mut self, parent: &Transform, absolute: &Transform)
        requires
            invertible(*parent),
        ensures
            *final(self) == decompose(*absolute, *parent),
    {
        *self = Transform {
            position: Vertex2::new(
                absolute.position.x.wrapping_sub(parent.position.x),
                absolute.position.y.wrapping_sub(parent.position.y),
            ),
            scale: Vertex2::new(
                wrapping_quotient(absolute.scale.x, parent.scale.x),
                wrapping_quotient(absolute.scale.y, parent.scale.y),
            ),
        };
    }

    /// Where a vertex given in the space of this transform lands.
    pub fn apply(&self, v: Vertex2<i32>) -> (r: Vertex2<i32>)
        ensures
            r == apply(v, *self),
    {
        Vertex2::new(
            v.x.wrapping_mul(self.scale.x).wrapping_add(self.position.x),
            v.y.wrapping_mul(self.scale.y).wrapping_add(self.position.y),
        )
    }
}

impl Default for Transform {
    fn default() -> (r: Transform)
        ensures
            r == identity(),
    {
        Transform { position: Vertex2::new(0, 0), scale: Vertex2::new(1, 1) }
    }
}

impl Add for Transform {
    type Output = Transform;

    fn add(self, child: Transform) -> (r: Transform) {
        Transform::compose(&self, &child)
    }
}

impl AddSpecImpl for Transform {
    open spec fn obeys_add_spec() -> bool {
        true
    }

    open spec fn add_req(self, child: Transform) -> bool {
        true
    }

    open spec fn add_spec(self, child: Transform) -> Transform {
        compose(self, child)
    }
}

impl Sub for Transform {
    type Output = Transform;

    fn sub(self, parent: Transform) -> (r: Transform) {
        let mut r = parent;
        r.set_absolute(&parent, &self);
        r
    }
}

impl SubSpecImpl for Transform {
    open spec fn obeys_sub_spec() -> bool {
        true
    }

    open spec fn sub_req(self, parent: Transform) -> bool {
        invertible(parent)
    }

    open spec fn sub_spec(self, parent: Transform) -> Transform {
        decompose(self, parent)
    }
}

/// The identity is neutral on the left: composing under the identity changes
/// nothing, and the identity's scale is one on both axes.
pub proof fn lemma_identity_neutral(t: Transform)
    ensures
        identity().scale == (Vertex2 { x: 1i32, y: 1i32 }),
        compose(identity(), t) == t,
{
    assert(1i32.wrapping_mul(t.scale.x) == t.scale.x) by (nonlinear_arith);
    assert(1i32.wrapping_mul(t.scale.y) == t.scale.y) by (nonlinear_arith);
}

} // verus!
