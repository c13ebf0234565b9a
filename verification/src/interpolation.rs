//! The cross-cutting interpolation capability.
//!
//! `lerp` blends two values of one type by a scalar parameter. Scalars
//! themselves carry the capability (it is a supertrait of
//! [`crate::scalar::Scalar`]), and so do angles and colors; each
//! implementation states its own exact contract.

use vstd::prelude::*;

verus! {

pub trait Interpolation<S>: Sized {
    /// The linear blend of `a` and `b` at parameter `t`.
    fn lerp(a: Self, b: Self, t: S) -> Self;
}

} // verus!
