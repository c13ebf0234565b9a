//! A four-component rotation value: scalar part plus three-vector.
//!
//! Built from Euler angles by the half-angle closed form, composed by
//! the Hamilton product, and converted to rotation matrices. Rotating
//! a vector is the sandwich product `q * pure(v) * conjugate(q)`.

use crate::euler::Euler;
use crate::matrix::{Matrix3x3, Matrix4x4};
use crate::scalar::Scalar;
use crate::vector::{Vec3, Vec4};
use vstd::prelude::*;

verus! {

#[derive(Debug, Clone, Copy, PartialEq)]
pub struct Quaternion<S: Scalar> {
    pub w: S,
    pub xyz: Vec3<S>,
}

impl<S: Scalar> Quaternion<S> {
    /// The quaternion with unit scalar part and zero vector part.
    pub open spec fn identity_spec() -> Quaternion<S> {
        Quaternion {
            w: S::one_spec(),
            xyz: Vec3 { x: S::zero_spec(), y: S::zero_spec(), z: S::zero_spec() },
        }
    }

    /// The half-angle construction: all three Euler angles are taken
    /// in radians, halved, and combined by the canonical
    /// yaw-pitch-roll closed form.
    pub open spec fn from_euler_spec(euler: Euler<S>) -> Quaternion<S> {
        let taken = euler.to_radians_spec().take_spec();
        let roll = taken.0.div_spec(S::two_spec());
        let pitch = taken.1.div_spec(S::two_spec());
        let yaw = taken.2.div_spec(S::two_spec());
        let cr = roll.cosine_spec();
        let sr = roll.sine_spec();
        let cp = pitch.cosine_spec();
        let sp = pitch.sine_spec();
        let cy = yaw.cosine_spec();
        let sy = yaw.sine_spec();
        Quaternion {
            w: cr.mul_spec(cp).mul_spec(cy).add_spec(sr.mul_spec(sp).mul_spec(sy)),
            xyz: Vec3 {
                x: sr.mul_spec(cp).mul_spec(cy).sub_spec(cr.mul_spec(sp).mul_spec(sy)),
                y: cr.mul_spec(sp).mul_spec(cy).add_spec(sr.mul_spec(cp).mul_spec(sy)),
                z: cr.mul_spec(cp).mul_spec(sy).sub_spec(sr.mul_spec(sp).mul_spec(cy)),
            },
        }
    }

    /// The embedding of a vector: zero scalar part.
    pub open spec fn pure_spec(xyz: Vec3<S>) -> Quaternion<S> {
        Quaternion { w: S::zero_spec(), xyz }
    }

    /// The vector part negated, scalar part kept.
    pub open spec fn conjugate_spec(self) -> Quaternion<S> {
        Quaternion {
            w: self.w,
            xyz: Vec3 { x: self.xyz.x.neg_spec(), y: self.xyz.y.neg_spec(), z: self.xyz.z.neg_spec() },
        }
    }

    /// The square root of the sum of the four squared components.
    pub open spec fn magnitude_spec(self) -> S {
        self.w.power_f_spec(S::two_spec()).add_spec(
            self.xyz.x.power_f_spec(S::two_spec()),
        ).add_spec(self.xyz.y.power_f_spec(S::two_spec())).add_spec(
            self.xyz.z.power_f_spec(S::two_spec()),
        ).square_root2_spec()
    }

    /// Every component multiplied by `s`.
    pub open spec fn scale_spec(self, s: S) -> Quaternion<S> {
        Quaternion {
            w: self.w.mul_spec(s),
            xyz: Vec3 {
                x: self.xyz.x.mul_spec(s),
                y: self.xyz.y.mul_spec(s),
                z: self.xyz.z.mul_spec(s),
            },
        }
    }

    /// The Hamilton product.
    pub open spec fn mul_spec(self, rhs: Quaternion<S>) -> Quaternion<S> {
        let aw = self.w;
        let ax = self.xyz.x;
        let ay = self.xyz.y;
        let az = self.xyz.z;
        let bw = rhs.w;
        let bx = rhs.xyz.x;
        let by = rhs.xyz.y;
        let bz = rhs.xyz.z;
        Quaternion {
            w: aw.mul_spec(bw).sub_spec(ax.mul_spec(bx)).sub_spec(ay.mul_spec(by)).sub_spec(
                az.mul_spec(bz),
            ),
            xyz: Vec3 {
                x: aw.mul_spec(bx).add_spec(ax.mul_spec(bw)).add_spec(ay.mul_spec(bz)).sub_spec(
                    az.mul_spec(by),
                ),
                y: aw.mul_spec(by).sub_spec(ax.mul_spec(bz)).add_spec(ay.mul_spec(bw)).add_spec(
                    az.mul_spec(bx),
                ),
                z: aw.mul_spec(bz).add_spec(ax.mul_spec(by)).sub_spec(ay.mul_spec(bx)).add_spec(
                    az.mul_spec(bw),
                ),
            },
        }
    }

    /// The quaternion with unit scalar part and zero vector part.
    pub fn identity() -> (r: Self)
        ensures
            r == Quaternion::<S>::identity_spec(),
    {
        Quaternion { w: S::one(), xyz: Vec3::zero() }
    }

    /// Builds the rotation quaternion from Euler angles by the
    /// half-angle closed form.
    pub fn from_euler(euler: Euler<S>) -> (r: Self)
        ensures
            r == Quaternion::from_euler_spec(euler),
    {
        let taken = euler.to_radians().take();
        let roll = taken.0.div(S::two());
        let pitch = taken.1.div(S::two());
        let yaw = taken.2.div(S::two());

        let cr = roll.cosine();
        let sr = roll.sine();
        let cp = pitch.cosine();
        let sp = pitch.sine();
        let cy = yaw.cosine();
        let sy = yaw.sine();

        let w = cr.mul(cp).mul(cy).add(sr.mul(sp).mul(sy));
        let x = sr.mul(cp).mul(cy).sub(cr.mul(sp).mul(sy));
        let y = cr.mul(sp).mul(cy).add(sr.mul(cp).mul(sy));
        let z = cr.mul(cp).mul(sy).sub(sr.mul(sp).mul(cy));

        Quaternion { w, xyz: Vec3 { x, y, z } }
    }

    /// Embeds a vector as a quaternion with zero scalar part.
    pub fn pure(xyz: Vec3<S>) -> (r: Self)
        ensures
            r == Quaternion::pure_spec(xyz),
    {
        Quaternion { w: S::zero(), xyz }
    }

    /// Negates the vector part.
    pub fn conjugate(self) -> (r: Self)
        ensures
            r == self.conjugate_spec(),
    {
        Quaternion { w: self.w, xyz: self.xyz.neg() }
    }

    /// The square root of the sum of the four squared components.
    pub fn magnitude(self) -> (r: S)
        ensures
            r == self.magnitude_spec(),
    {
        self.w.squared().add(self.xyz.x.squared()).add(self.xyz.y.squared()).add(
            self.xyz.z.squared(),
        ).square_root2()
    }

    /// The conjugate scaled by one over the squared magnitude.
    pub fn inverse(self) -> (r: Self)
        ensures
            r == self.conjugate_spec().scale_spec(
                S::one_spec().div_spec(self.magnitude_spec().power_f_spec(S::two_spec())),
            ),
    {
        self.conjugate().mul_scalar(S::one().div(self.magnitude().squared()))
    }

    /// The Hamilton product.
    pub fn mul(self, rhs: Self) -> (r: Self)
        ensures
            r == self.mul_spec(rhs),
    {
        let aw = self.w;
        let ax = self.xyz.x;
        let ay = self.xyz.y;
        let az = self.xyz.z;
        let bw = rhs.w;
        let bx = rhs.xyz.x;
        let by = rhs.xyz.y;
        let bz = rhs.xyz.z;

        let w = aw.mul(bw).sub(ax.mul(bx)).sub(ay.mul(by)).sub(az.mul(bz));
        let x = aw.mul(bx).add(ax.mul(bw)).add(ay.mul(bz)).sub(az.mul(by));
        let y = aw.mul(by).sub(ax.mul(bz)).add(ay.mul(bw)).add(az.mul(bx));
        let z = aw.mul(bz).add(ax.mul(by)).sub(ay.mul(bx)).add(az.mul(bw));

        Quaternion { w, xyz: Vec3 { x, y, z } }
    }

    /// Rotates a vector by the sandwich product
    /// `q * pure(v) * conjugate(q)`, returning its vector part.
    pub fn mul_vec3(self, rhs: Vec3<S>) -> (r: Vec3<S>)
        ensures
            r == self.mul_spec(Quaternion::pure_spec(rhs)).mul_spec(self.conjugate_spec()).xyz,
    {
        self.mul(Quaternion::pure(rhs)).mul(self.conjugate()).xyz
    }

    /// Every component multiplied by `rhs`.
    pub fn mul_scalar(self, rhs: S) -> (r: Self)
        ensures
            r == self.scale_spec(rhs),
    {
        Quaternion { w: self.w.mul(rhs), xyz: self.xyz.mul_scalar(rhs) }
    }

    /// Componentwise sum.
    pub fn add(self, rhs: Self) -> (r: Self)
        ensures
            r.w == self.w.add_spec(rhs.w),
            r.xyz.x == self.xyz.x.add_spec(rhs.xyz.x),
            r.xyz.y == self.xyz.y.add_spec(rhs.xyz.y),
            r.xyz.z == self.xyz.z.add_spec(rhs.xyz.z),
    {
        Quaternion { w: self.w.add(rhs.w), xyz: self.xyz.add(rhs.xyz) }
    }

    /// The scalar added to every component.
    pub fn add_scalar(self, rhs: S) -> (r: Self)
        ensures
            r.w == self.w.add_spec(rhs),
            r.xyz.x == self.xyz.x.add_spec(rhs),
            r.xyz.y == self.xyz.y.add_spec(rhs),
            r.xyz.z == self.xyz.z.add_spec(rhs),
    {
        Quaternion { w: self.w.add(rhs), xyz: self.xyz.add_scalar(rhs) }
    }

    /// The rotation matrix of this quaternion.
    pub fn to_rotation_3x3(self) -> (r: Matrix3x3<S>)
        ensures
            r == Matrix3x3::from_quat_spec(self),
    {
        let q0 = self.w;
        let q1 = self.xyz.x;
        let q2 = self.xyz.y;
        let q3 = self.xyz.z;

        let one = S::one();
        let two = S::two();

        Matrix3x3 {
            r0: Vec3 {
                x: one.sub(two.mul(q2.squared().add(q3.squared()))),
                y: two.mul(q1.mul(q2).sub(q0.mul(q3))),
                z: two.mul(q1.mul(q3).add(q0.mul(q2))),
            },
            r1: Vec3 {
                x: two.mul(q1.mul(q2).add(q0.mul(q3))),
                y: one.sub(two.mul(q1.squared().add(q3.squared()))),
                z: two.mul(q2.mul(q3).sub(q0.mul(q1))),
            },
            r2: Vec3 {
                x: two.mul(q1.mul(q3).sub(q0.mul(q2))),
                y: two.mul(q2.mul(q3).add(q0.mul(q1))),
                z: one.sub(two.mul(q1.squared().add(q2.squared()))),
            },
        }
    }

    /// The rotation matrix padded with the identity row and column.
    pub fn to_rotation_4x4(self) -> (r: Matrix4x4<S>)
        ensures
            r == Matrix4x4::from_quat_spec(self),
    {
        let q0 = self.w;
        let q1 = self.xyz.x;
        let q2 = self.xyz.y;
        let q3 = self.xyz.z;

        let one = S::one();
        let two = S::two();

        Matrix4x4 {
            r0: Vec4 {
                x: one.sub(two.mul(q2.squared().add(q3.squared()))),
                y: two.mul(q1.mul(q2).sub(q0.mul(q3))),
                z: two.mul(q1.mul(q3).add(q0.mul(q2))),
                w: S::zero(),
            },
            r1: Vec4 {
                x: two.mul(q1.mul(q2).add(q0.mul(q3))),
                y: one.sub(two.mul(q1.squared().add(q3.squared()))),
                z: two.mul(q2.mul(q3).sub(q0.mul(q1))),
                w: S::zero(),
            },
            r2: Vec4 {
                x: two.mul(q1.mul(q3).sub(q0.mul(q2))),
                y: two.mul(q2.mul(q3).add(q0.mul(q1))),
                z: one.sub(two.mul(q1.squared().add(q2.squared()))),
                w: S::zero(),
            },
            r3: Vec4 { x: S::zero(), y: S::zero(), z: S::zero(), w: S::one() },
        }
    }
}

} // verus!
