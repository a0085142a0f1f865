//! Component-wise arithmetic: sum and difference of two vectors, product and quotient
//! of a vector and a scalar, each as an operator and in its in-place form.
//!
//! The scalar type brings its own arithmetic. Each operation here asks of the scalar
//! operations it performs what they ask of their operands, and says which scalar
//! results the components of its result are. Where the scalar type's operators obey
//! their specification, the result is pinned down exactly.

use crate::vector::Vec3;
use std::ops::Add;
use std::ops::AddAssign;
use std::ops::Div;
use std::ops::DivAssign;
use std::ops::Mul;
use std::ops::MulAssign;
use std::ops::Sub;
use std::ops::SubAssign;
use vstd::prelude::*;
use vstd::std_specs::ops::AddSpec;
use vstd::std_specs::ops::DivSpec;
use vstd::std_specs::ops::MulSpec;
use vstd::std_specs::ops::SubSpec;

verus! {

impl<T: Copy + Add<Output = T>> vstd::std_specs::ops::AddSpecImpl for Vec3<T> {
    /// Vector addition is specified wherever scalar addition is.
    open spec fn obeys_add_spec() -> bool {
        T::obeys_add_spec()
    }

    /// The three scalar additions must be allowed.
    open spec fn add_req(self, rhs: Vec3<T>) -> bool {
        &&& self@[0].add_req(rhs@[0])
        &&& self@[1].add_req(rhs@[1])
        &&& self@[2].add_req(rhs@[2])
    }

    /// `(a + b)[i] = a[i] + b[i]`.
    open spec fn add_spec(self, rhs: Vec3<T>) -> Vec3<T> {
        Vec3::spec_new(
            self@[0].add_spec(rhs@[0]),
            self@[1].add_spec(rhs@[1]),
            self@[2].add_spec(rhs@[2]),
        )
    }
}

impl<T: Copy + Add<Output = T>> Add for Vec3<T> {
    type Output = Vec3<T>;

    /// The component-wise sum.
    fn add(self, rhs: Vec3<T>) -> (r: Vec3<T>)
        ensures
            T::obeys_add_spec() ==> r.has_components(
                self@[0].add_spec(rhs@[0]),
                self@[1].add_spec(rhs@[1]),
                self@[2].add_spec(rhs@[2]),
            ),
    {
        Vec3::new(self.x() + rhs.x(), self.y() + rhs.y(), self.z() + rhs.z())
    }
}

impl<T: Copy + Add<Output = T>> AddAssign for Vec3<T> {
    /// Replaces the vector by its component-wise sum with `rhs`.
    fn add_assign(&mut self, rhs: Vec3<T>)
        requires
            old(self).add_req(rhs),
        ensures
            T::obeys_add_spec() ==> *final(self) == old(self).add_spec(rhs),
            T::obeys_add_spec() ==> final(self).has_components(
                old(self)@[0].add_spec(rhs@[0]),
                old(self)@[1].add_spec(rhs@[1]),
                old(self)@[2].add_spec(rhs@[2]),
            ),
    {
        *self = Vec3::new(self.x() + rhs.x(), self.y() + rhs.y(), self.z() + rhs.z());
    }
}

impl<T: Copy + Sub<Output = T>> vstd::std_specs::ops::SubSpecImpl for Vec3<T> {
    /// Vector subtraction is specified wherever scalar subtraction is.
    open spec fn obeys_sub_spec() -> bool {
        T::obeys_sub_spec()
    }

    /// The three scalar subtractions must be allowed.
    open spec fn sub_req(self, rhs: Vec3<T>) -> bool {
        &&& self@[0].sub_req(rhs@[0])
        &&& self@[1].sub_req(rhs@[1])
        &&& self@[2].sub_req(rhs@[2])
    }

    /// `(a - b)[i] = a[i] - b[i]`.
    open spec fn sub_spec(self, rhs: Vec3<T>) -> Vec3<T> {
        Vec3::spec_new(
            self@[0].sub_spec(rhs@[0]),
            self@[1].sub_spec(rhs@[1]),
            self@[2].sub_spec(rhs@[2]),
        )
    }
}

impl<T: Copy + Sub<Output = T>> Sub for Vec3<T> {
    type Output = Vec3<T>;

    /// The component-wise difference.
    fn sub(self, rhs: Vec3<T>) -> (r: Vec3<T>)
        ensures
            T::obeys_sub_spec() ==> r.has_components(
                self@[0].sub_spec(rhs@[0]),
                self@[1].sub_spec(rhs@[1]),
                self@[2].sub_spec(rhs@[2]),
            ),
    {
        Vec3::new(self.x() - rhs.x(), self.y() - rhs.y(), self.z() - rhs.z())
    }
}

impl<T: Copy + Sub<Output = T>> SubAssign for Vec3<T> {
    /// Replaces the vector by its component-wise difference with `rhs`.
    fn sub_assign(&mut self, rhs: Vec3<T>)
        requires
            old(self).sub_req(rhs),
        ensures
            T::obeys_sub_spec() ==> *final(self) == old(self).sub_spec(rhs),
            T::obeys_sub_spec() ==> final(self).has_components(
                old(self)@[0].sub_spec(rhs@[0]),
                old(self)@[1].sub_spec(rhs@[1]),
                old(self)@[2].sub_spec(rhs@[2]),
            ),
    {
        *self = Vec3::new(self.x() - rhs.x(), self.y() - rhs.y(), self.z() - rhs.z());
    }
}

impl<T: Copy + Mul<Output = T>> vstd::std_specs::ops::MulSpecImpl<T> for Vec3<T> {
    /// Scaling is specified wherever scalar multiplication is.
    open spec fn obeys_mul_spec() -> bool {
        T::obeys_mul_spec()
    }

    /// The three scalar multiplications must be allowed.
    open spec fn mul_req(self, rhs: T) -> bool {
        &&& self@[0].mul_req(rhs)
        &&& self@[1].mul_req(rhs)
        &&& self@[2].mul_req(rhs)
    }

    /// `(a * s)[i] = a[i] * s`.
    open spec fn mul_spec(self, rhs: T) -> Vec3<T> {
        Vec3::spec_new(self@[0].mul_spec(rhs), self@[1].mul_spec(rhs), self@[2].mul_spec(rhs))
    }
}

impl<T: Copy + Mul<Output = T>> Mul<T> for Vec3<T> {
    type Output = Vec3<T>;

    /// Each component multiplied by the scalar `rhs`.
    fn mul(self, rhs: T) -> (r: Vec3<T>)
        ensures
            T::obeys_mul_spec() ==> r.has_components(
                self@[0].mul_spec(rhs),
                self@[1].mul_spec(rhs),
                self@[2].mul_spec(rhs),
            ),
    {
        Vec3::new(self.x() * rhs, self.y() * rhs, self.z() * rhs)
    }
}

impl<T: Copy + Mul<Output = T>> MulAssign<T> for Vec3<T> {
    /// Multiplies each component by the scalar `rhs`, in place.
    fn mul_assign(&mut self, rhs: T)
        requires
            old(self).mul_req(rhs),
        ensures
            T::obeys_mul_spec() ==> *final(self) == old(self).mul_spec(rhs),
            T::obeys_mul_spec() ==> final(self).has_components(
                old(self)@[0].mul_spec(rhs),
                old(self)@[1].mul_spec(rhs),
                old(self)@[2].mul_spec(rhs),
            ),
    {
        *self = Vec3::new(self.x() * rhs, self.y() * rhs, self.z() * rhs);
    }
}

impl<T: Copy + Div<Output = T>> vstd::std_specs::ops::DivSpecImpl<T> for Vec3<T> {
    /// Division by a scalar is specified wherever scalar division is.
    open spec fn obeys_div_spec() -> bool {
        T::obeys_div_spec()
    }

    /// The three scalar divisions must be allowed. Whether a zero divisor is allowed
    /// is for the scalar type to say.
    open spec fn div_req(self, rhs: T) -> bool {
        &&& self@[0].div_req(rhs)
        &&& self@[1].div_req(rhs)
        &&& self@[2].div_req(rhs)
    }

    /// `(a / s)[i] = a[i] / s`.
    open spec fn div_spec(self, rhs: T) -> Vec3<T> {
        Vec3::spec_new(self@[0].div_spec(rhs), self@[1].div_spec(rhs), self@[2].div_spec(rhs))
    }
}

impl<T: Copy + Div<Output = T>> Div<T> for Vec3<T> {
    type Output = Vec3<T>;

    /// Each component divided by the scalar `rhs`.
    fn div(self, rhs: T) -> (r: Vec3<T>)
        ensures
            T::obeys_div_spec() ==> r.has_components(
                self@[0].div_spec(rhs),
                self@[1].div_spec(rhs),
                self@[2].div_spec(rhs),
            ),
    {
        Vec3::new(self.x() / rhs, self.y() / rhs, self.z() / rhs)
    }
}

impl<T: Copy + Div<Output = T>> DivAssign<T> for Vec3<T> {
    /// Divides each component by the scalar `rhs`, in place.
    fn div_assign(&mut self, rhs: T)
        requires
            old(self).div_req(rhs),
        ensures
            T::obeys_div_spec() ==> *final(self) == old(self).div_spec(rhs),
            T::obeys_div_spec() ==> final(self).has_components(
                old(self)@[0].div_spec(rhs),
                old(self)@[1].div_spec(rhs),
                old(self)@[2].div_spec(rhs),
            ),
    {
        *self = Vec3::new(self.x() / rhs, self.y() / rhs, self.z() / rhs);
    }
}

/// The product of a scalar and a vector, with the scalar written first: the same
/// vector as `v * s`.
pub fn scale<T: Copy + Mul<Output = T>>(s: T, v: Vec3<T>) -> (r: Vec3<T>)
    requires
        v.mul_req(s),
    ensures
        T::obeys_mul_spec() ==> r == v.mul_spec(s),
        T::obeys_mul_spec() ==> r.has_components(
            v@[0].mul_spec(s),
            v@[1].mul_spec(s),
            v@[2].mul_spec(s),
        ),
{
    v * s
}

} // verus!
