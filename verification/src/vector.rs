//! Fixed-length numeric tuples of two, three and four scalars.
//!
//! Each length is a concrete type sharing the same operation set:
//! elementwise arithmetic with a vector or a broadcast scalar, the dot
//! product, squared length and magnitude, normalization and the angle
//! between two vectors. The cross product belongs to the three-vector
//! alone. `up` pads a vector with a trailing zero; `down` drops the
//! last component.

use crate::angle::Angle;
use crate::scalar::Scalar;
use vstd::prelude::*;

verus! {

#[derive(Debug, Clone, Copy, PartialEq)]
pub struct Vec2<S: Scalar> {
    pub x: S,
    pub y: S,
}

#[derive(Debug, Clone, Copy, PartialEq)]
pub struct Vec3<S: Scalar> {
    pub x: S,
    pub y: S,
    pub z: S,
}

#[derive(Debug, Clone, Copy, PartialEq)]
pub struct Vec4<S: Scalar> {
    pub x: S,
    pub y: S,
    pub z: S,
    pub w: S,
}

impl<S: Scalar> Vec2<S> {
    /// The sum of the squared components, folded left from zero.
    pub open spec fn length_spec(self) -> S {
        S::zero_spec().add_spec(self.x.power_f_spec(S::two_spec())).add_spec(
            self.y.power_f_spec(S::two_spec()),
        )
    }

    /// The square root of the squared length.
    pub open spec fn magnitude_spec(self) -> S {
        self.length_spec().square_root2_spec()
    }

    /// The dot product, folded left from zero.
    pub open spec fn dot_spec(self, other: Vec2<S>) -> S {
        S::zero_spec().add_spec(self.x.mul_spec(other.x)).add_spec(self.y.mul_spec(other.y))
    }

    /// Every component divided by the magnitude. The zero vector's
    /// magnitude is zero, so its normalization is non-finite by design.
    pub open spec fn normalized_spec(self) -> Vec2<S> {
        Vec2 { x: self.x.div_spec(self.magnitude_spec()), y: self.y.div_spec(self.magnitude_spec()) }
    }

    pub fn from_array(inner: [S; 2]) -> (r: Self)
        ensures
            r.x == inner@[0],
            r.y == inner@[1],
    {
        Vec2 { x: inner[0], y: inner[1] }
    }

    /// The vector of zeros.
    pub fn zero() -> (r: Self)
        ensures
            r == (Vec2 { x: S::zero_spec(), y: S::zero_spec() }),
    {
        Vec2 { x: S::zero(), y: S::zero() }
    }

    /// The vector of ones.
    pub fn one() -> (r: Self)
        ensures
            r == (Vec2 { x: S::one_spec(), y: S::one_spec() }),
    {
        Vec2 { x: S::one(), y: S::one() }
    }

    pub fn length(&self) -> (r: S)
        ensures
            r == self.length_spec(),
    {
        S::zero().add(self.x.squared()).add(self.y.squared())
    }

    pub fn magnitude(&self) -> (r: S)
        ensures
            r == self.magnitude_spec(),
    {
        self.length().square_root2()
    }

    pub fn dot_product(&self, other: &Self) -> (r: S)
        ensures
            r == self.dot_spec(*other),
    {
        S::zero().add(self.x.mul(other.x)).add(self.y.mul(other.y))
    }

    pub fn normalized(&self) -> (r: Self)
        ensures
            r == self.normalized_spec(),
    {
        let len = self.magnitude();
        Vec2 { x: self.x.div(len), y: self.y.div(len) }
    }

    pub fn normalize(&mut self)
        ensures
            *final(self) == old(self).normalized_spec(),
    {
        *self = self.normalized();
    }

    /// The angle between the two vectors, in radians: the inverse
    /// cosine of the dot product over the product of the magnitudes,
    /// with the ratio clamped into the inverse cosine's domain so that
    /// rounding past the boundary cannot yield a non-finite angle.
    pub fn angle_between(&self, other: &Self) -> (r: Angle<S>)
        ensures
            r == Angle::<S>::Radians(
                self.dot_spec(*other).div_spec(
                    self.magnitude_spec().mul_spec(other.magnitude_spec()),
                ).s_clamp_spec(S::neg_one_spec(), S::one_spec()).inverse_cosine_spec(),
            ),
    {
        let ratio = self.dot_product(other).div(self.magnitude().mul(other.magnitude()));
        Angle::Radians(ratio.s_clamp(S::neg_one(), S::one()).inverse_cosine())
    }

    pub fn add(self, rhs: Self) -> (r: Self)
        ensures
            r.x == self.x.add_spec(rhs.x),
            r.y == self.y.add_spec(rhs.y),
    {
        Vec2 { x: self.x.add(rhs.x), y: self.y.add(rhs.y) }
    }

    pub fn add_scalar(self, rhs: S) -> (r: Self)
        ensures
            r.x == self.x.add_spec(rhs),
            r.y == self.y.add_spec(rhs),
    {
        Vec2 { x: self.x.add(rhs), y: self.y.add(rhs) }
    }

    pub fn sub(self, rhs: Self) -> (r: Self)
        ensures
            r.x == self.x.sub_spec(rhs.x),
            r.y == self.y.sub_spec(rhs.y),
    {
        Vec2 { x: self.x.sub(rhs.x), y: self.y.sub(rhs.y) }
    }

    pub fn sub_scalar(self, rhs: S) -> (r: Self)
        ensures
            r.x == self.x.sub_spec(rhs),
            r.y == self.y.sub_spec(rhs),
    {
        Vec2 { x: self.x.sub(rhs), y: self.y.sub(rhs) }
    }

    pub fn mul_scalar(self, rhs: S) -> (r: Self)
        ensures
            r.x == self.x.mul_spec(rhs),
            r.y == self.y.mul_spec(rhs),
    {
        Vec2 { x: self.x.mul(rhs), y: self.y.mul(rhs) }
    }

    pub fn neg(self) -> (r: Self)
        ensures
            r.x == self.x.neg_spec(),
            r.y == self.y.neg_spec(),
    {
        Vec2 { x: self.x.neg(), y: self.y.neg() }
    }

    /// Pads with a trailing zero into a three-vector.
    pub fn up(self) -> (r: Vec3<S>)
        ensures
            r == (Vec3 { x: self.x, y: self.y, z: S::zero_spec() }),
    {
        Vec3 { x: self.x, y: self.y, z: S::zero() }
    }
}

impl<S: Scalar> Vec3<S> {
    /// The sum of the squared components, folded left from zero.
    pub open spec fn length_spec(self) -> S {
        S::zero_spec().add_spec(self.x.power_f_spec(S::two_spec())).add_spec(
            self.y.power_f_spec(S::two_spec()),
        ).add_spec(self.z.power_f_spec(S::two_spec()))
    }

    /// The square root of the squared length.
    pub open spec fn magnitude_spec(self) -> S {
        self.length_spec().square_root2_spec()
    }

    /// The dot product, folded left from zero.
    pub open spec fn dot_spec(self, other: Vec3<S>) -> S {
        S::zero_spec().add_spec(self.x.mul_spec(other.x)).add_spec(
            self.y.mul_spec(other.y),
        ).add_spec(self.z.mul_spec(other.z))
    }

    /// Every component divided by the magnitude. The zero vector's
    /// magnitude is zero, so its normalization is non-finite by design.
    pub open spec fn normalized_spec(self) -> Vec3<S> {
        Vec3 {
            x: self.x.div_spec(self.magnitude_spec()),
            y: self.y.div_spec(self.magnitude_spec()),
            z: self.z.div_spec(self.magnitude_spec()),
        }
    }

    /// The elementwise difference.
    pub open spec fn sub_vec_spec(self, rhs: Vec3<S>) -> Vec3<S> {
        Vec3 {
            x: self.x.sub_spec(rhs.x),
            y: self.y.sub_spec(rhs.y),
            z: self.z.sub_spec(rhs.z),
        }
    }

    /// The cross product:
    /// `(ay*bz - az*by, az*bx - ax*bz, ax*by - ay*bx)`.
    pub open spec fn cross_spec(self, other: Vec3<S>) -> Vec3<S> {
        Vec3 {
            x: self.y.mul_spec(other.z).sub_spec(self.z.mul_spec(other.y)),
            y: self.z.mul_spec(other.x).sub_spec(self.x.mul_spec(other.z)),
            z: self.x.mul_spec(other.y).sub_spec(self.y.mul_spec(other.x)),
        }
    }

    pub fn from_array(inner: [S; 3]) -> (r: Self)
        ensures
            r.x == inner@[0],
            r.y == inner@[1],
            r.z == inner@[2],
    {
        Vec3 { x: inner[0], y: inner[1], z: inner[2] }
    }

    /// The vector of zeros.
    pub fn zero() -> (r: Self)
        ensures
            r == (Vec3 { x: S::zero_spec(), y: S::zero_spec(), z: S::zero_spec() }),
    {
        Vec3 { x: S::zero(), y: S::zero(), z: S::zero() }
    }

    /// The vector of ones.
    pub fn one() -> (r: Self)
        ensures
            r == (Vec3 { x: S::one_spec(), y: S::one_spec(), z: S::one_spec() }),
    {
        Vec3 { x: S::one(), y: S::one(), z: S::one() }
    }

    /// The first basis vector.
    pub fn right() -> (r: Self)
        ensures
            r == (Vec3 { x: S::one_spec(), y: S::zero_spec(), z: S::zero_spec() }),
    {
        Vec3 { x: S::one(), y: S::zero(), z: S::zero() }
    }

    /// The second basis vector.
    pub fn up_axis() -> (r: Self)
        ensures
            r == (Vec3 { x: S::zero_spec(), y: S::one_spec(), z: S::zero_spec() }),
    {
        Vec3 { x: S::zero(), y: S::one(), z: S::zero() }
    }

    /// The third basis vector.
    pub fn forward() -> (r: Self)
        ensures
            r == (Vec3 { x: S::zero_spec(), y: S::zero_spec(), z: S::one_spec() }),
    {
        Vec3 { x: S::zero(), y: S::zero(), z: S::one() }
    }

    pub fn x(&self) -> (r: S)
        ensures
            r == self.x,
    {
        self.x
    }

    pub fn y(&self) -> (r: S)
        ensures
            r == self.y,
    {
        self.y
    }

    pub fn z(&self) -> (r: S)
        ensures
            r == self.z,
    {
        self.z
    }

    pub fn x_y_z(&self) -> (r: (S, S, S))
        ensures
            r == (self.x, self.y, self.z),
    {
        (self.x, self.y, self.z)
    }

    pub fn length(&self) -> (r: S)
        ensures
            r == self.length_spec(),
    {
        S::zero().add(self.x.squared()).add(self.y.squared()).add(self.z.squared())
    }

    pub fn magnitude(&self) -> (r: S)
        ensures
            r == self.magnitude_spec(),
    {
        self.length().square_root2()
    }

    pub fn dot_product(&self, other: &Self) -> (r: S)
        ensures
            r == self.dot_spec(*other),
    {
        S::zero().add(self.x.mul(other.x)).add(self.y.mul(other.y)).add(self.z.mul(other.z))
    }

    pub fn cross(&self, v: &Self) -> (r: Self)
        ensures
            r == self.cross_spec(*v),
    {
        Vec3 {
            x: self.y.mul(v.z).sub(self.z.mul(v.y)),
            y: self.z.mul(v.x).sub(self.x.mul(v.z)),
            z: self.x.mul(v.y).sub(self.y.mul(v.x)),
        }
    }

    pub fn normalized(&self) -> (r: Self)
        ensures
            r == self.normalized_spec(),
    {
        let len = self.magnitude();
        Vec3 { x: self.x.div(len), y: self.y.div(len), z: self.z.div(len) }
    }

    pub fn normalize(&mut self)
        ensures
            *final(self) == old(self).normalized_spec(),
    {
        *self = self.normalized();
    }

    /// The angle between the two vectors, in radians: the inverse
    /// cosine of the dot product over the product of the magnitudes,
    /// with the ratio clamped into the inverse cosine's domain so that
    /// rounding past the boundary cannot yield a non-finite angle.
    pub fn angle_between(&self, other: &Self) -> (r: Angle<S>)
        ensures
            r == Angle::<S>::Radians(
                self.dot_spec(*other).div_spec(
                    self.magnitude_spec().mul_spec(other.magnitude_spec()),
                ).s_clamp_spec(S::neg_one_spec(), S::one_spec()).inverse_cosine_spec(),
            ),
    {
        let ratio = self.dot_product(other).div(self.magnitude().mul(other.magnitude()));
        Angle::Radians(ratio.s_clamp(S::neg_one(), S::one()).inverse_cosine())
    }

    pub fn add(self, rhs: Self) -> (r: Self)
        ensures
            r.x == self.x.add_spec(rhs.x),
            r.y == self.y.add_spec(rhs.y),
            r.z == self.z.add_spec(rhs.z),
    {
        Vec3 { x: self.x.add(rhs.x), y: self.y.add(rhs.y), z: self.z.add(rhs.z) }
    }

    pub fn add_scalar(self, rhs: S) -> (r: Self)
        ensures
            r.x == self.x.add_spec(rhs),
            r.y == self.y.add_spec(rhs),
            r.z == self.z.add_spec(rhs),
    {
        Vec3 { x: self.x.add(rhs), y: self.y.add(rhs), z: self.z.add(rhs) }
    }

    pub fn sub(self, rhs: Self) -> (r: Self)
        ensures
            r.x == self.x.sub_spec(rhs.x),
            r.y == self.y.sub_spec(rhs.y),
            r.z == self.z.sub_spec(rhs.z),
    {
        Vec3 { x: self.x.sub(rhs.x), y: self.y.sub(rhs.y), z: self.z.sub(rhs.z) }
    }

    pub fn sub_scalar(self, rhs: S) -> (r: Self)
        ensures
            r.x == self.x.sub_spec(rhs),
            r.y == self.y.sub_spec(rhs),
            r.z == self.z.sub_spec(rhs),
    {
        Vec3 { x: self.x.sub(rhs), y: self.y.sub(rhs), z: self.z.sub(rhs) }
    }

    pub fn mul_scalar(self, rhs: S) -> (r: Self)
        ensures
            r.x == self.x.mul_spec(rhs),
            r.y == self.y.mul_spec(rhs),
            r.z == self.z.mul_spec(rhs),
    {
        Vec3 { x: self.x.mul(rhs), y: self.y.mul(rhs), z: self.z.mul(rhs) }
    }

    pub fn neg(self) -> (r: Self)
        ensures
            r.x == self.x.neg_spec(),
            r.y == self.y.neg_spec(),
            r.z == self.z.neg_spec(),
    {
        Vec3 { x: self.x.neg(), y: self.y.neg(), z: self.z.neg() }
    }

    /// Pads with a trailing zero into a four-vector.
    pub fn up(self) -> (r: Vec4<S>)
        ensures
            r == (Vec4 { x: self.x, y: self.y, z: self.z, w: S::zero_spec() }),
    {
        Vec4 { x: self.x, y: self.y, z: self.z, w: S::zero() }
    }

    /// Drops the last component into a two-vector.
    pub fn down(self) -> (r: Vec2<S>)
        ensures
            r == (Vec2 { x: self.x, y: self.y }),
    {
        Vec2 { x: self.x, y: self.y }
    }
}

impl<S: Scalar> Vec4<S> {
    /// The sum of the squared components, folded left from zero.
    pub open spec fn length_spec(self) -> S {
        S::zero_spec().add_spec(self.x.power_f_spec(S::two_spec())).add_spec(
            self.y.power_f_spec(S::two_spec()),
        ).add_spec(self.z.power_f_spec(S::two_spec())).add_spec(
            self.w.power_f_spec(S::two_spec()),
        )
    }

    /// The square root of the squared length.
    pub open spec fn magnitude_spec(self) -> S {
        self.length_spec().square_root2_spec()
    }

    /// The dot product, folded left from zero.
    pub open spec fn dot_spec(self, other: Vec4<S>) -> S {
        S::zero_spec().add_spec(self.x.mul_spec(other.x)).add_spec(
            self.y.mul_spec(other.y),
        ).add_spec(self.z.mul_spec(other.z)).add_spec(self.w.mul_spec(other.w))
    }

    /// Every component divided by the magnitude. The zero vector's
    /// magnitude is zero, so its normalization is non-finite by design.
    pub open spec fn normalized_spec(self) -> Vec4<S> {
        Vec4 {
            x: self.x.div_spec(self.magnitude_spec()),
            y: self.y.div_spec(self.magnitude_spec()),
            z: self.z.div_spec(self.magnitude_spec()),
            w: self.w.div_spec(self.magnitude_spec()),
        }
    }

    pub fn from_array(inner: [S; 4]) -> (r: Self)
        ensures
            r.x == inner@[0],
            r.y == inner@[1],
            r.z == inner@[2],
            r.w == inner@[3],
    {
        Vec4 { x: inner[0], y: inner[1], z: inner[2], w: inner[3] }
    }

    /// The vector of zeros.
    pub fn zero() -> (r: Self)
        ensures
            r == (Vec4 {
                x: S::zero_spec(),
                y: S::zero_spec(),
                z: S::zero_spec(),
                w: S::zero_spec(),
            }),
    {
        Vec4 { x: S::zero(), y: S::zero(), z: S::zero(), w: S::zero() }
    }

    /// The vector of ones.
    pub fn one() -> (r: Self)
        ensures
            r == (Vec4 { x: S::one_spec(), y: S::one_spec(), z: S::one_spec(), w: S::one_spec() }),
    {
        Vec4 { x: S::one(), y: S::one(), z: S::one(), w: S::one() }
    }

    pub fn length(&self) -> (r: S)
        ensures
            r == self.length_spec(),
    {
        S::zero().add(self.x.squared()).add(self.y.squared()).add(self.z.squared()).add(
            self.w.squared(),
        )
    }

    pub fn magnitude(&self) -> (r: S)
        ensures
            r == self.magnitude_spec(),
    {
        self.length().square_root2()
    }

    pub fn dot_product(&self, other: &Self) -> (r: S)
        ensures
            r == self.dot_spec(*other),
    {
        S::zero().add(self.x.mul(other.x)).add(self.y.mul(other.y)).add(
            self.z.mul(other.z),
        ).add(self.w.mul(other.w))
    }

    pub fn normalized(&self) -> (r: Self)
        ensures
            r == self.normalized_spec(),
    {
        let len = self.magnitude();
        Vec4 { x: self.x.div(len), y: self.y.div(len), z: self.z.div(len), w: self.w.div(len) }
    }

    pub fn normalize(&mut self)
        ensures
            *final(self) == old(self).normalized_spec(),
    {
        *self = self.normalized();
    }

    /// The angle between the two vectors, in radians: the inverse
    /// cosine of the dot product over the product of the magnitudes,
    /// with the ratio clamped into the inverse cosine's domain so that
    /// rounding past the boundary cannot yield a non-finite angle.
    pub fn angle_between(&self, other: &Self) -> (r: Angle<S>)
        ensures
            r == Angle::<S>::Radians(
                self.dot_spec(*other).div_spec(
                    self.magnitude_spec().mul_spec(other.magnitude_spec()),
                ).s_clamp_spec(S::neg_one_spec(), S::one_spec()).inverse_cosine_spec(),
            ),
    {
        let ratio = self.dot_product(other).div(self.magnitude().mul(other.magnitude()));
        Angle::Radians(ratio.s_clamp(S::neg_one(), S::one()).inverse_cosine())
    }

    pub fn add(self, rhs: Self) -> (r: Self)
        ensures
            r.x == self.x.add_spec(rhs.x),
            r.y == self.y.add_spec(rhs.y),
            r.z == self.z.add_spec(rhs.z),
            r.w == self.w.add_spec(rhs.w),
    {
        Vec4 {
            x: self.x.add(rhs.x),
            y: self.y.add(rhs.y),
            z: self.z.add(rhs.z),
            w: self.w.add(rhs.w),
        }
    }

    pub fn add_scalar(self, rhs: S) -> (r: Self)
        ensures
            r.x == self.x.add_spec(rhs),
            r.y == self.y.add_spec(rhs),
            r.z == self.z.add_spec(rhs),
            r.w == self.w.add_spec(rhs),
    {
        Vec4 { x: self.x.add(rhs), y: self.y.add(rhs), z: self.z.add(rhs), w: self.w.add(rhs) }
    }

    pub fn sub(self, rhs: Self) -> (r: Self)
        ensures
            r.x == self.x.sub_spec(rhs.x),
            r.y == self.y.sub_spec(rhs.y),
            r.z == self.z.sub_spec(rhs.z),
            r.w == self.w.sub_spec(rhs.w),
    {
        Vec4 {
            x: self.x.sub(rhs.x),
            y: self.y.sub(rhs.y),
            z: self.z.sub(rhs.z),
            w: self.w.sub(rhs.w),
        }
    }

    pub fn sub_scalar(self, rhs: S) -> (r: Self)
        ensures
            r.x == self.x.sub_spec(rhs),
            r.y == self.y.sub_spec(rhs),
            r.z == self.z.sub_spec(rhs),
            r.w == self.w.sub_spec(rhs),
    {
        Vec4 { x: self.x.sub(rhs), y: self.y.sub(rhs), z: self.z.sub(rhs), w: self.w.sub(rhs) }
    }

    pub fn mul_scalar(self, rhs: S) -> (r: Self)
        ensures
            r.x == self.x.mul_spec(rhs),
            r.y == self.y.mul_spec(rhs),
            r.z == self.z.mul_spec(rhs),
            r.w == self.w.mul_spec(rhs),
    {
        Vec4 { x: self.x.mul(rhs), y: self.y.mul(rhs), z: self.z.mul(rhs), w: self.w.mul(rhs) }
    }

    pub fn neg(self) -> (r: Self)
        ensures
            r.x == self.x.neg_spec(),
            r.y == self.y.neg_spec(),
            r.z == self.z.neg_spec(),
            r.w == self.w.neg_spec(),
    {
        Vec4 { x: self.x.neg(), y: self.y.neg(), z: self.z.neg(), w: self.w.neg() }
    }

    /// Drops the last component into a three-vector.
    pub fn down(self) -> (r: Vec3<S>)
        ensures
            r == (Vec3 { x: self.x, y: self.y, z: self.z }),
    {
        Vec3 { x: self.x, y: self.y, z: self.z }
    }
}

} // verus!
