//! The dot product and the cross product.
//!
//! Both feed scalar products into further scalar operations. What those later
//! operations are applied to is known only where the scalar multiplication obeys its
//! specification, so each product asks either that, or that the later operation is
//! allowed on all operands.

use crate::vector::Vec3;
use std::ops::Add;
use std::ops::Mul;
use std::ops::Sub;
use vstd::prelude::*;
use vstd::std_specs::ops::AddSpec;
use vstd::std_specs::ops::MulSpec;
use vstd::std_specs::ops::SubSpec;

verus! {

/// Addition of `T` is allowed on all operands.
pub open spec fn add_always_allowed<T: Add<Output = T>>() -> bool {
    forall|p: T, q: T| #[trigger] p.add_req(q)
}

/// Subtraction of `T` is allowed on all operands.
pub open spec fn sub_always_allowed<T: Sub<Output = T>>() -> bool {
    forall|p: T, q: T| #[trigger] p.sub_req(q)
}

impl<T: Copy + Mul<Output = T> + Add<Output = T>> Vec3<T> {
    /// `a.x*b.x + a.y*b.y + a.z*b.z`, summed from the left.
    pub open spec fn dot_spec(self, rhs: Vec3<T>) -> T {
        self@[0].mul_spec(rhs@[0]).add_spec(self@[1].mul_spec(rhs@[1])).add_spec(
            self@[2].mul_spec(rhs@[2]),
        )
    }

    /// What the dot product asks: that its three multiplications are allowed, and
    /// its two additions. The additions are allowed where addition always is, or
    /// where the scalar arithmetic obeys its specification and the first two
    /// products, and then their sum and the third product, may be added.
    pub open spec fn dot_req(self, rhs: Vec3<T>) -> bool {
        &&& self@[0].mul_req(rhs@[0])
        &&& self@[1].mul_req(rhs@[1])
        &&& self@[2].mul_req(rhs@[2])
        &&& add_always_allowed::<T>() || {
            &&& T::obeys_mul_spec()
            &&& T::obeys_add_spec()
            &&& self@[0].mul_spec(rhs@[0]).add_req(self@[1].mul_spec(rhs@[1]))
            &&& self@[0].mul_spec(rhs@[0]).add_spec(self@[1].mul_spec(rhs@[1])).add_req(
                self@[2].mul_spec(rhs@[2]),
            )
        }
    }

    /// The dot product of two vectors.
    pub fn dot(self, rhs: Vec3<T>) -> (d: T)
        requires
            self.dot_req(rhs),
        ensures
            T::obeys_mul_spec() && T::obeys_add_spec() ==> d == self.dot_spec(rhs),
    {
        self.x() * rhs.x() + self.y() * rhs.y() + self.z() * rhs.z()
    }
}

impl<T: Copy + Mul<Output = T> + Sub<Output = T>> Vec3<T> {
    /// The right-handed cross product:
    /// `(a.y*b.z - a.z*b.y, a.z*b.x - a.x*b.z, a.x*b.y - a.y*b.x)`.
    pub open spec fn cross_spec(self, rhs: Vec3<T>) -> Vec3<T> {
        Vec3::spec_new(
            self@[1].mul_spec(rhs@[2]).sub_spec(self@[2].mul_spec(rhs@[1])),
            self@[2].mul_spec(rhs@[0]).sub_spec(self@[0].mul_spec(rhs@[2])),
            self@[0].mul_spec(rhs@[1]).sub_spec(self@[1].mul_spec(rhs@[0])),
        )
    }

    /// What the cross product asks: that its six multiplications are allowed, and
    /// its three subtractions. The subtractions are allowed where subtraction always
    /// is, or where the scalar multiplication obeys its specification and the two
    /// products of each component may be subtracted.
    pub open spec fn cross_req(self, rhs: Vec3<T>) -> bool {
        &&& self@[1].mul_req(rhs@[2])
        &&& self@[2].mul_req(rhs@[1])
        &&& self@[2].mul_req(rhs@[0])
        &&& self@[0].mul_req(rhs@[2])
        &&& self@[0].mul_req(rhs@[1])
        &&& self@[1].mul_req(rhs@[0])
        &&& sub_always_allowed::<T>() || {
            &&& T::obeys_mul_spec()
            &&& self@[1].mul_spec(rhs@[2]).sub_req(self@[2].mul_spec(rhs@[1]))
            &&& self@[2].mul_spec(rhs@[0]).sub_req(self@[0].mul_spec(rhs@[2]))
            &&& self@[0].mul_spec(rhs@[1]).sub_req(self@[1].mul_spec(rhs@[0]))
        }
    }

    /// The cross product of two vectors.
    pub fn cross(self, rhs: Vec3<T>) -> (c: Vec3<T>)
        requires
            self.cross_req(rhs),
        ensures
            T::obeys_mul_spec() && T::obeys_sub_spec() ==> c == self.cross_spec(rhs),
            T::obeys_mul_spec() && T::obeys_sub_spec() ==> c.has_components(
                self@[1].mul_spec(rhs@[2]).sub_spec(self@[2].mul_spec(rhs@[1])),
                self@[2].mul_spec(rhs@[0]).sub_spec(self@[0].mul_spec(rhs@[2])),
                self@[0].mul_spec(rhs@[1]).sub_spec(self@[1].mul_spec(rhs@[0])),
            ),
    {
        Vec3::new(
            self.y() * rhs.z() - self.z() * rhs.y(),
            self.z() * rhs.x() - self.x() * rhs.z(),
            self.x() * rhs.y() - self.y() * rhs.x(),
        )
    }
}

} // verus!
