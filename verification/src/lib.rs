//! A three-component vector over any scalar type: a geometric and colour primitive
//! with construction, component access, component-wise arithmetic, dot and cross
//! product, clamping, equality and two textual forms.
//!
//! The scalar type is a parameter, and brings its own arithmetic, order, equality and
//! text. A vector operation is specified in terms of the scalar operations it
//! performs: it asks what they ask, and its result is made of their results.
//!
//! - [`vector`]: the type [`Vec3`], its view as a sequence of three components, its
//!   constructor and its accessors.
//! - [`arith`]: `+`, `-`, `*` and `/` with their in-place forms, and [`arith::scale`].
//! - [`products`]: the dot and the cross product.
//! - [`clamp`]: clamping to a closed interval.
//! - [`equality`]: `==` on vectors.
//! - [`text`]: the form `(x, y, z)` and the colour line `R G B`.
//! - [`laws`]: the algebraic laws that the operations satisfy.
//!
//! A proof about vectors that are given by [`Vec3::spec_new`] can bring their
//! components in with `broadcast use vector::group_vec3_view`.

pub mod arith;
pub mod clamp;
pub mod equality;
pub mod laws;
pub mod products;
pub mod text;
pub mod vector;

pub use vector::Color;
pub use vector::Point3;
pub use vector::Vec3;
