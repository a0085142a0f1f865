//! Equality of vectors: component by component, by the scalar type's own `==`.

use crate::vector::Vec3;
use vstd::prelude::*;
use vstd::std_specs::cmp::PartialEqSpec;

verus! {

impl<T: PartialEq> vstd::std_specs::cmp::PartialEqSpecImpl for Vec3<T> {
    /// Vector equality is specified wherever scalar equality is.
    open spec fn obeys_eq_spec() -> bool {
        T::obeys_eq_spec()
    }

    /// Two vectors are equal exactly when all three pairs of components compare
    /// equal. A scalar that does not equal itself makes a vector that does not equal
    /// itself.
    open spec fn eq_spec(&self, other: &Vec3<T>) -> bool {
        &&& self@[0].eq_spec(&other@[0])
        &&& self@[1].eq_spec(&other@[1])
        &&& self@[2].eq_spec(&other@[2])
    }
}

impl<T: PartialEq> PartialEq for Vec3<T> {
    /// Compares the components in order, by the scalar type's `==`.
    fn eq(&self, other: &Vec3<T>) -> (r: bool)
        ensures
            T::obeys_eq_spec() ==> r == (self@[0].eq_spec(&other@[0]) && self@[1].eq_spec(
                &other@[1],
            ) && self@[2].eq_spec(&other@[2])),
    {
        self[0] == other[0] && self[1] == other[1] && self[2] == other[2]
    }
}

} // verus!
