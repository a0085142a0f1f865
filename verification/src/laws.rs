//! Algebraic laws of the vector operations.
//!
//! The vector operations work component by component, so an identity of the scalar
//! arithmetic carries over to vectors exactly where it holds of the components
//! involved. Each law below names, as its premise, the scalar identity it rests on.
//! Exact arithmetic meets these premises everywhere; arithmetic that rounds or
//! overflows meets them only on some operands, and the laws hold on those.

use crate::vector::Vec3;
use std::ops::Add;
use std::ops::Div;
use std::ops::Mul;
use std::ops::Neg;
use std::ops::Sub;
use vstd::prelude::*;
use vstd::std_specs::ops::AddSpec;
use vstd::std_specs::ops::DivSpec;
use vstd::std_specs::ops::MulSpec;
use vstd::std_specs::ops::NegSpec;
use vstd::std_specs::ops::SubSpec;

verus! {

broadcast use crate::vector::group_vec3_view;

/// The component-wise negation of a vector, as a mathematical value.
pub open spec fn negated<T: Copy + Neg<Output = T>>(v: Vec3<T>) -> Vec3<T> {
    Vec3::spec_new(v@[0].neg_spec(), v@[1].neg_spec(), v@[2].neg_spec())
}

/// Subtracting what was added gives the first vector back: `(a + b) - b == a`,
/// wherever the scalar subtraction undoes the scalar addition on each pair of
/// components.
pub proof fn lemma_add_then_sub<T: Copy + Add<Output = T> + Sub<Output = T>>(
    a: Vec3<T>,
    b: Vec3<T>,
)
    requires
        forall|i: int| 0 <= i < 3 ==> (#[trigger] a@[i].add_spec(b@[i])).sub_spec(b@[i]) == a@[i],
    ensures
        a.add_spec(b).sub_spec(b) == a,
{
    let r = a.add_spec(b).sub_spec(b);
    assert(r@ =~= a@);
    r.lemma_view_determines(a);
}

/// Dividing by the scalar that was multiplied by gives the vector back:
/// `(a * s) / s == a`, wherever the scalar division by `s` undoes the scalar
/// multiplication by `s` on each component. (For numbers this asks at least that `s`
/// is not zero.)
pub proof fn lemma_mul_then_div<T: Copy + Mul<Output = T> + Div<Output = T>>(a: Vec3<T>, s: T)
    requires
        forall|i: int| 0 <= i < 3 ==> (#[trigger] a@[i].mul_spec(s)).div_spec(s) == a@[i],
    ensures
        a.mul_spec(s).div_spec(s) == a,
{
    let r = a.mul_spec(s).div_spec(s);
    assert(r@ =~= a@);
    r.lemma_view_determines(a);
}

/// The dot product is commutative: `dot(a, b) == dot(b, a)`, wherever the scalar
/// multiplication commutes on each pair of components.
pub proof fn lemma_dot_commutes<T: Copy + Mul<Output = T> + Add<Output = T>>(
    a: Vec3<T>,
    b: Vec3<T>,
)
    requires
        forall|i: int| 0 <= i < 3 ==> #[trigger] a@[i].mul_spec(b@[i]) == b@[i].mul_spec(a@[i]),
    ensures
        a.dot_spec(b) == b.dot_spec(a),
{
}

/// The cross product is anti-commutative: `cross(a, b) == -cross(b, a)`, wherever
/// the scalar multiplication commutes on the components of `a` and `b`, and
/// exchanging the operands of a scalar subtraction negates the difference of the
/// products involved.
pub proof fn lemma_cross_anticommutes<
    T: Copy + Mul<Output = T> + Sub<Output = T> + Neg<Output = T>,
>(a: Vec3<T>, b: Vec3<T>)
    requires
        forall|i: int, j: int|
            0 <= i < 3 && 0 <= j < 3 ==> #[trigger] a@[i].mul_spec(b@[j]) == b@[j].mul_spec(a@[i]),
        forall|i: int, j: int|
            0 <= i < 3 && 0 <= j < 3 ==> (#[trigger] a@[i].mul_spec(b@[j])).sub_spec(
                #[trigger] a@[j].mul_spec(b@[i]),
            ) == a@[j].mul_spec(b@[i]).sub_spec(a@[i].mul_spec(b@[j])).neg_spec(),
    ensures
        a.cross_spec(b) == negated(b.cross_spec(a)),
{
    let l = a.cross_spec(b);
    let r = negated(b.cross_spec(a));
    assert(l@ =~= r@);
    l.lemma_view_determines(r);
}

/// The cross product of a vector with itself is the zero vector:
/// `cross(a, a) == (zero, zero, zero)`, wherever the scalar multiplication commutes
/// on the components of `a` and each product of two components, subtracted from
/// itself, gives `zero`.
pub proof fn lemma_cross_self<T: Copy + Mul<Output = T> + Sub<Output = T>>(a: Vec3<T>, zero: T)
    requires
        forall|i: int, j: int|
            0 <= i < 3 && 0 <= j < 3 ==> #[trigger] a@[i].mul_spec(a@[j]) == a@[j].mul_spec(a@[i]),
        forall|i: int, j: int|
            0 <= i < 3 && 0 <= j < 3 ==> (#[trigger] a@[i].mul_spec(a@[j])).sub_spec(
                a@[i].mul_spec(a@[j]),
            ) == zero,
    ensures
        a.cross_spec(a) == Vec3::spec_new(zero, zero, zero),
{
    let l = a.cross_spec(a);
    let r = Vec3::spec_new(zero, zero, zero);
    assert(l@ =~= r@);
    l.lemma_view_determines(r);
}

} // verus!
