//! Short constructors for the fixed-length vectors.

use crate::scalar::Scalar;
use crate::vector::{Vec2, Vec3, Vec4};
use vstd::prelude::*;

verus! {

pub fn vec2<S: Scalar>(x: S, y: S) -> (r: Vec2<S>)
    ensures
        r == (Vec2 { x, y }),
{
    Vec2 { x, y }
}

pub fn vec3<S: Scalar>(x: S, y: S, z: S) -> (r: Vec3<S>)
    ensures
        r == (Vec3 { x, y, z }),
{
    Vec3 { x, y, z }
}

pub fn vec4<S: Scalar>(x: S, y: S, z: S, w: S) -> (r: Vec4<S>)
    ensures
        r == (Vec4 { x, y, z, w }),
{
    Vec4 { x, y, z, w }
}

} // verus!
