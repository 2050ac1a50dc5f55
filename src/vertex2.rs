//! A point or a vector in the plane.
//!
//! The arithmetic operators act on each coordinate on its own, by the
//! coordinate type's own operator.
use vstd::prelude::*;
use vstd::std_specs::ops::{AddSpec, AddSpecImpl, DivSpec, DivSpecImpl, MulSpec, MulSpecImpl, SubSpec, SubSpecImpl};
use std::ops::{Add, AddAssign, Div, DivAssign, Mul, MulAssign, Sub, SubAssign};

verus! {

/// A pair of coordinates.
#[derive(Debug, Clone, Copy, PartialEq, Eq, Default, Structural)]
pub struct Vertex2<T> {
    pub x: T,
    pub y: T,
}

impl<T> Vertex2<T> {
    pub fn new(x: T, y: T) -> (r: Self)
        ensures
            r.x == x,
            r.y == y,
    {
        Vertex2 { x, y }
    }
}

impl<T: Add<Output = T> + Copy> Add for Vertex2<T> {
    type Output = Vertex2<T>;

    fn add(self, rhs: Vertex2<T>) -> (r: Vertex2<T>) {
        Vertex2 { x: self.x + rhs.x, y: self.y + rhs.y }
    }
}

impl<T: Add<Output = T> + Copy> AddSpecImpl for Vertex2<T> {
    open spec fn obeys_add_spec() -> bool {
        T::obeys_add_spec()
    }

    open spec fn add_req(self, rhs: Vertex2<T>) -> bool {
        self.x.add_req(rhs.x) && self.y.add_req(rhs.y)
    }

    open spec fn add_spec(self, rhs: Vertex2<T>) -> Vertex2<T> {
        Vertex2 { x: self.x.add_spec(rhs.x), y: self.y.add_spec(rhs.y) }
    }
}

impl<T: Sub<Output = T> + Copy> Sub for Vertex2<T> {
    type Output = Vertex2<T>;

    fn sub(self, rhs: Vertex2<T>) -> (r: Vertex2<T>) {
        Vertex2 { x: self.x - rhs.x, y: self.y - rhs.y }
    }
}

impl<T: Sub<Output = T> + Copy> SubSpecImpl for Vertex2<T> {
    open spec fn obeys_sub_spec() -> bool {
        T::obeys_sub_spec()
    }

    open spec fn sub_req(self, rhs: Vertex2<T>) -> bool {
        self.x.sub_req(rhs.x) && self.y.sub_req(rhs.y)
    }

    open spec fn sub_spec(self, rhs: Vertex2<T>) -> Vertex2<T> {
        Vertex2 { x: self.x.sub_spec(rhs.x), y: self.y.sub_spec(rhs.y) }
    }
}

impl<T: Mul<Output = T> + Copy> Mul for Vertex2<T> {
    type Output = Vertex2<T>;

    fn mul(self, rhs: Vertex2<T>) -> (r: Vertex2<T>) {
        Vertex2 { x: self.x * rhs.x, y: self.y * rhs.y }
    }
}

impl<T: Mul<Output = T> + Copy> MulSpecImpl for Vertex2<T> {
    open spec fn obeys_mul_spec() -> bool {
        T::obeys_mul_spec()
    }

    open spec fn mul_req(self, rhs: Vertex2<T>) -> bool {
        self.x.mul_req(rhs.x) && self.y.mul_req(rhs.y)
    }

    open spec fn mul_spec(self, rhs: Vertex2<T>) -> Vertex2<T> {
        Vertex2 { x: self.x.mul_spec(rhs.x), y: self.y.mul_spec(rhs.y) }
    }
}

impl<T: Div<Output = T> + Copy> Div for Vertex2<T> {
    type Output = Vertex2<T>;

    fn div(self, rhs: Vertex2<T>) -> (r: Vertex2<T>) {
        Vertex2 { x: self.x / rhs.x, y: self.y / rhs.y }
    }
}

impl<T: Div<Output = T> + Copy> DivSpecImpl for Vertex2<T> {
    open spec fn obeys_div_spec() -> bool {
        T::obeys_div_spec()
    }

    open spec fn div_req(self, rhs: Vertex2<T>) -> bool {
        self.x.div_req(rhs.x) && self.y.div_req(rhs.y)
    }

    open spec fn div_spec(self, rhs: Vertex2<T>) -> Vertex2<T> {
        Vertex2 { x: self.x.div_spec(rhs.x), y: self.y.div_spec(rhs.y) }
    }
}

impl<T: Add<Output = T> + Copy> AddAssign for Vertex2<T> {
    /// `self = self + rhs`.
    fn add_assign(&mut self, rhs: Vertex2<T>)
        requires
            AddSpec::add_req(*old(self), rhs),
        ensures
            <Vertex2<T> as AddSpec>::obeys_add_spec() ==> *final(self) == AddSpec::add_spec(
                *old(self),
                rhs,
            ),
    {
        *self = *self + rhs;
    }
}

impl<T: Sub<Output = T> + Copy> SubAssign for Vertex2<T> {
    /// `self = self - rhs`.
    fn sub_assign(&mut self, rhs: Vertex2<T>)
        requires
            SubSpec::sub_req(*old(self), rhs),
        ensures
            <Vertex2<T> as SubSpec>::obeys_sub_spec() ==> *final(self) == SubSpec::sub_spec(
                *old(self),
                rhs,
            ),
    {
        *self = *self - rhs;
    }
}

impl<T: Mul<Output = T> + Copy> MulAssign for Vertex2<T> {
    /// `self = self * rhs`.
    fn mul_assign(&mut self, rhs: Vertex2<T>)
        requires
            MulSpec::mul_req(*old(self), rhs),
        ensures
            <Vertex2<T> as MulSpec>::obeys_mul_spec() ==> *final(self) == MulSpec::mul_spec(
                *old(self),
                rhs,
            ),
    {
        *self = *self * rhs;
    }
}

impl<T: Div<Output = T> + Copy> DivAssign for Vertex2<T> {
    /// `self = self / rhs`.
    fn div_assign(&mut self, rhs: Vertex2<T>)
        requires
            DivSpec::div_req(*old(self), rhs),
        ensures
            <Vertex2<T> as DivSpec>::obeys_div_spec() ==> *final(self) == DivSpec::div_spec(
                *old(self),
                rhs,
            ),
    {
        *self = *self / rhs;
    }
}

/// On integer coordinates, adding a vector and then subtracting it gives back the
/// starting point, whenever the sum fits.
pub proof fn lemma_add_sub_cancels(a: Vertex2<i32>, b: Vertex2<i32>)
    requires
        AddSpec::add_req(a, b),
    ensures
        SubSpec::sub_req(AddSpec::add_spec(a, b), b),
        SubSpec::sub_spec(AddSpec::add_spec(a, b), b) == a,
{
}

/// On integer coordinates each operator acts on the two axes independently, as
/// the scalar operator does on each of them.
pub proof fn lemma_componentwise(a: Vertex2<i32>, b: Vertex2<i32>)
    ensures
        AddSpec::add_spec(a, b) == (Vertex2 { x: AddSpec::add_spec(a.x, b.x), y: AddSpec::add_spec(a.y, b.y) }),
        SubSpec::sub_spec(a, b) == (Vertex2 { x: SubSpec::sub_spec(a.x, b.x), y: SubSpec::sub_spec(a.y, b.y) }),
        MulSpec::mul_spec(a, b) == (Vertex2 { x: MulSpec::mul_spec(a.x, b.x), y: MulSpec::mul_spec(a.y, b.y) }),
        DivSpec::div_spec(a, b) == (Vertex2 { x: DivSpec::div_spec(a.x, b.x), y: DivSpec::div_spec(a.y, b.y) }),
        AddSpec::add_req(a, b) <==> AddSpec::add_req(a.x, b.x) && AddSpec::add_req(a.y, b.y),
        SubSpec::sub_req(a, b) <==> SubSpec::sub_req(a.x, b.x) && SubSpec::sub_req(a.y, b.y),
        MulSpec::mul_req(a, b) <==> MulSpec::mul_req(a.x, b.x) && MulSpec::mul_req(a.y, b.y),
        DivSpec::div_req(a, b) <==> DivSpec::div_req(a.x, b.x) && DivSpec::div_req(a.y, b.y),
{
}

} // verus!
