//! The vector type, its mathematical view, its constructor and its component access.

use std::ops::Index;
use std::ops::IndexMut;
use vstd::prelude::*;

verus! {

/// Three ordered components of one scalar type, addressed by the indices 0, 1 and 2
/// (x, y and z). A vector is a plain value: every operation copies it.
#[derive(Copy, Debug)]
pub struct Vec3<T> {
    e: [T; 3],
}

/// A position in space; the same type as [`Vec3`].
pub type Point3<T> = Vec3<T>;

/// A colour with red, green and blue components; the same type as [`Vec3`].
pub type Color<T> = Vec3<T>;

impl<T> View for Vec3<T> {
    type V = Seq<T>;

    /// The components in order: a sequence of length three.
    closed spec fn view(&self) -> Seq<T> {
        self.e@
    }
}

impl<T: Copy> Clone for Vec3<T> {
    /// A copy of the vector.
    fn clone(&self) -> (r: Self)
        ensures
            r == *self,
    {
        *self
    }
}

impl<T> Vec3<T> {
    /// The vector with components `e0`, `e1` and `e2`, as a mathematical value.
    pub closed spec fn spec_new(e0: T, e1: T, e2: T) -> Self {
        Vec3 { e: [e0, e1, e2] }
    }

    /// The vector has the components `e0`, `e1` and `e2`, in this order. The one fact
    /// is stated in each of its forms, for a caller to have whichever it needs: as a
    /// value, as a view, and component by component.
    pub open spec fn has_components(self, e0: T, e1: T, e2: T) -> bool {
        &&& self == Self::spec_new(e0, e1, e2)
        &&& self@ == seq![e0, e1, e2]
        &&& self@[0] == e0
        &&& self@[1] == e1
        &&& self@[2] == e2
    }

    /// Every vector has exactly three components.
    pub broadcast proof fn lemma_view_len(self)
        ensures
            #[trigger] self@.len() == 3,
    {
    }

    /// The components of `spec_new(e0, e1, e2)` are `e0`, `e1` and `e2`, in this order.
    pub broadcast proof fn lemma_view_new(e0: T, e1: T, e2: T)
        ensures
            #![trigger Self::spec_new(e0, e1, e2)]
            Self::spec_new(e0, e1, e2)@ == seq![e0, e1, e2],
            Self::spec_new(e0, e1, e2)@[0] == e0,
            Self::spec_new(e0, e1, e2)@[1] == e1,
            Self::spec_new(e0, e1, e2)@[2] == e2,
    {
        assert(Self::spec_new(e0, e1, e2).e@ =~= seq![e0, e1, e2]);
    }

    /// A vector is determined by its components: two vectors with the same view are equal.
    pub proof fn lemma_view_determines(self, other: Self)
        requires
            self@ == other@,
        ensures
            self == other,
    {
        assert(self.e =~= other.e);
    }

    /// Builds the vector whose components are `e0`, `e1` and `e2`, in this order.
    /// Any values are accepted as they are.
    #[verifier::when_used_as_spec(spec_new)]
    pub fn new(e0: T, e1: T, e2: T) -> (v: Self)
        ensures
            v.has_components(e0, e1, e2),
    {
        proof {
            Self::lemma_view_new(e0, e1, e2);
        }
        Vec3 { e: [e0, e1, e2] }
    }
}

impl<T: Copy> Vec3<T> {
    /// The component at index 0.
    pub fn x(self) -> (c: T)
        ensures
            c == self@[0],
    {
        self.e[0]
    }

    /// The component at index 1.
    pub fn y(self) -> (c: T)
        ensures
            c == self@[1],
    {
        self.e[1]
    }

    /// The component at index 2.
    pub fn z(self) -> (c: T)
        ensures
            c == self@[2],
    {
        self.e[2]
    }
}

impl<T> vstd::std_specs::core::IndexSpecImpl<usize> for Vec3<T> {
    /// Only 0, 1 and 2 are indices of a vector.
    open spec fn index_req(&self, index: &usize) -> bool {
        *index < 3
    }
}

impl<T> Index<usize> for Vec3<T> {
    type Output = T;

    /// Reads the component at `index`, which must be 0, 1 or 2.
    fn index(&self, index: usize) -> (c: &T)
        ensures
            *c == self@[index as int],
    {
        &self.e[index]
    }
}

impl<T> IndexMut<usize> for Vec3<T> {
    /// Lends the component at `index`, which must be 0, 1 or 2, for writing. The
    /// vector afterwards differs from the vector before at most at that index, where
    /// it holds what was written.
    fn index_mut(&mut self, index: usize) -> (c: &mut T)
        requires
            index < 3,
        ensures
            *c == old(self)@[index as int],
            final(self)@ == old(self)@.update(index as int, *final(c)),
    {
        &mut self.e[index]
    }
}

/// The facts that relate a vector to its view.
pub broadcast group group_vec3_view {
    Vec3::lemma_view_len,
    Vec3::lemma_view_new,
}

} // verus!
