//! Fixed-size square matrices built from row vectors.
//!
//! The three square sizes are concrete types. Each carries transpose
//! and elementwise addition and subtraction; the square-matrix
//! capability supplies the identity, with an optional scalar override
//! for the diagonal. Multiplication is written per fixed size by the
//! explicit row-by-column formula. The transform builders (axis and
//! Euler rotations, translation, scale, the two projections and the
//! view matrix) use the standard right-handed forms.

use crate::angle::Angle;
use crate::euler::Euler;
use crate::quaternion::Quaternion;
use crate::scalar::Scalar;
use crate::vector::{Vec2, Vec3, Vec4};
use vstd::prelude::*;

verus! {

#[derive(Debug, Clone, Copy, PartialEq)]
pub struct Matrix2x2<S: Scalar> {
    pub r0: Vec2<S>,
    pub r1: Vec2<S>,
}

#[derive(Debug, Clone, Copy, PartialEq)]
pub struct Matrix3x3<S: Scalar> {
    pub r0: Vec3<S>,
    pub r1: Vec3<S>,
    pub r2: Vec3<S>,
}

#[derive(Debug, Clone, Copy, PartialEq)]
pub struct Matrix4x4<S: Scalar> {
    pub r0: Vec4<S>,
    pub r1: Vec4<S>,
    pub r2: Vec4<S>,
    pub r3: Vec4<S>,
}

/// The order in which the three Euler rotations compose. Only the
/// `ZYX` composition is implemented; asking for `XYZ` is answered by
/// an explicit unsupported-order error, never by a wrong matrix.
#[derive(Debug, Clone, Copy)]
pub enum RotationOrder {
    ZYX,
    XYZ,
}

/// The explicit failure signal for a rotation request the kernel does
/// not implement.
#[derive(Debug, Clone, Copy, PartialEq, Eq, Structural)]
pub enum RotationError {
    UnsupportedOrder,
}

/// The square-matrix capability: an identity constant, with an
/// optional override placed on every diagonal entry instead of one.
pub trait SquareMatrix<S: Scalar>: Sized {
    /// The matrix with `value` (one when absent) on the diagonal and
    /// zero elsewhere.
    spec fn identity_spec(value: Option<S>) -> Self;

    fn identity(value: Option<S>) -> (r: Self)
        ensures
            r == Self::identity_spec(value),
    ;
}

/// Law: transposing twice returns the matrix unchanged.
pub proof fn lemma_transpose2x2_involutive<S: Scalar>(m: Matrix2x2<S>)
    ensures
        m.transpose_spec().transpose_spec() == m,
{
}

/// Law: transposing twice returns the matrix unchanged.
pub proof fn lemma_transpose3x3_involutive<S: Scalar>(m: Matrix3x3<S>)
    ensures
        m.transpose_spec().transpose_spec() == m,
{
}

/// Law: transposing twice returns the matrix unchanged.
pub proof fn lemma_transpose4x4_involutive<S: Scalar>(m: Matrix4x4<S>)
    ensures
        m.transpose_spec().transpose_spec() == m,
{
}

impl<S: Scalar> SquareMatrix<S> for Matrix2x2<S> {
    open spec fn identity_spec(value: Option<S>) -> Matrix2x2<S> {
        let diag = match value {
            Some(v) => v,
            None => S::one_spec(),
        };
        Matrix2x2 {
            r0: Vec2 { x: diag, y: S::zero_spec() },
            r1: Vec2 { x: S::zero_spec(), y: diag },
        }
    }

    fn identity(value: Option<S>) -> (r: Self) {
        let diag = match value {
            Some(v) => v,
            None => S::one(),
        };
        Matrix2x2 { r0: Vec2 { x: diag, y: S::zero() }, r1: Vec2 { x: S::zero(), y: diag } }
    }
}

impl<S: Scalar> SquareMatrix<S> for Matrix3x3<S> {
    open spec fn identity_spec(value: Option<S>) -> Matrix3x3<S> {
        let diag = match value {
            Some(v) => v,
            None => S::one_spec(),
        };
        Matrix3x3 {
            r0: Vec3 { x: diag, y: S::zero_spec(), z: S::zero_spec() },
            r1: Vec3 { x: S::zero_spec(), y: diag, z: S::zero_spec() },
            r2: Vec3 { x: S::zero_spec(), y: S::zero_spec(), z: diag },
        }
    }

    fn identity(value: Option<S>) -> (r: Self) {
        let diag = match value {
            Some(v) => v,
            None => S::one(),
        };
        Matrix3x3 {
            r0: Vec3 { x: diag, y: S::zero(), z: S::zero() },
            r1: Vec3 { x: S::zero(), y: diag, z: S::zero() },
            r2: Vec3 { x: S::zero(), y: S::zero(), z: diag },
        }
    }
}

impl<S: Scalar> SquareMatrix<S> for Matrix4x4<S> {
    open spec fn identity_spec(value: Option<S>) -> Matrix4x4<S> {
        let diag = match value {
            Some(v) => v,
            None => S::one_spec(),
        };
        Matrix4x4 {
            r0: Vec4 { x: diag, y: S::zero_spec(), z: S::zero_spec(), w: S::zero_spec() },
            r1: Vec4 { x: S::zero_spec(), y: diag, z: S::zero_spec(), w: S::zero_spec() },
            r2: Vec4 { x: S::zero_spec(), y: S::zero_spec(), z: diag, w: S::zero_spec() },
            r3: Vec4 { x: S::zero_spec(), y: S::zero_spec(), z: S::zero_spec(), w: diag },
        }
    }

    fn identity(value: Option<S>) -> (r: Self) {
        let diag = match value {
            Some(v) => v,
            None => S::one(),
        };
        Matrix4x4 {
            r0: Vec4 { x: diag, y: S::zero(), z: S::zero(), w: S::zero() },
            r1: Vec4 { x: S::zero(), y: diag, z: S::zero(), w: S::zero() },
            r2: Vec4 { x: S::zero(), y: S::zero(), z: diag, w: S::zero() },
            r3: Vec4 { x: S::zero(), y: S::zero(), z: S::zero(), w: diag },
        }
    }
}

impl<S: Scalar> Matrix2x2<S> {
    /// Rows and columns swapped.
    pub open spec fn transpose_spec(self) -> Matrix2x2<S> {
        Matrix2x2 {
            r0: Vec2 { x: self.r0.x, y: self.r1.x },
            r1: Vec2 { x: self.r0.y, y: self.r1.y },
        }
    }

    /// The elementwise sum.
    pub open spec fn add_spec(self, rhs: Matrix2x2<S>) -> Matrix2x2<S> {
        Matrix2x2 {
            r0: Vec2 { x: self.r0.x.add_spec(rhs.r0.x), y: self.r0.y.add_spec(rhs.r0.y) },
            r1: Vec2 { x: self.r1.x.add_spec(rhs.r1.x), y: self.r1.y.add_spec(rhs.r1.y) },
        }
    }

    /// The elementwise difference.
    pub open spec fn sub_spec(self, rhs: Matrix2x2<S>) -> Matrix2x2<S> {
        Matrix2x2 {
            r0: Vec2 { x: self.r0.x.sub_spec(rhs.r0.x), y: self.r0.y.sub_spec(rhs.r0.y) },
            r1: Vec2 { x: self.r1.x.sub_spec(rhs.r1.x), y: self.r1.y.sub_spec(rhs.r1.y) },
        }
    }

    /// The row-by-column product.
    pub open spec fn mul_spec(self, rhs: Matrix2x2<S>) -> Matrix2x2<S> {
        Matrix2x2 {
            r0: Vec2 {
                x: self.r0.x.mul_spec(rhs.r0.x).add_spec(self.r0.y.mul_spec(rhs.r1.x)),
                y: self.r0.x.mul_spec(rhs.r0.y).add_spec(self.r0.y.mul_spec(rhs.r1.y)),
            },
            r1: Vec2 {
                x: self.r1.x.mul_spec(rhs.r0.x).add_spec(self.r1.y.mul_spec(rhs.r1.x)),
                y: self.r1.x.mul_spec(rhs.r0.y).add_spec(self.r1.y.mul_spec(rhs.r1.y)),
            },
        }
    }

    pub fn from_array(array: [Vec2<S>; 2]) -> (r: Self)
        ensures
            r.r0 == array@[0],
            r.r1 == array@[1],
    {
        Matrix2x2 { r0: array[0], r1: array[1] }
    }

    /// The matrix of zeros.
    pub fn zero() -> (r: Self)
        ensures
            r == (Matrix2x2 {
                r0: Vec2 { x: S::zero_spec(), y: S::zero_spec() },
                r1: Vec2 { x: S::zero_spec(), y: S::zero_spec() },
            }),
    {
        Matrix2x2 { r0: Vec2::zero(), r1: Vec2::zero() }
    }

    /// The matrix of ones.
    pub fn one() -> (r: Self)
        ensures
            r == (Matrix2x2 {
                r0: Vec2 { x: S::one_spec(), y: S::one_spec() },
                r1: Vec2 { x: S::one_spec(), y: S::one_spec() },
            }),
    {
        Matrix2x2 { r0: Vec2::one(), r1: Vec2::one() }
    }

    pub fn transpose(&self) -> (r: Self)
        ensures
            r == self.transpose_spec(),
    {
        Matrix2x2 {
            r0: Vec2 { x: self.r0.x, y: self.r1.x },
            r1: Vec2 { x: self.r0.y, y: self.r1.y },
        }
    }

    pub fn add(self, rhs: Self) -> (r: Self)
        ensures
            r == self.add_spec(rhs),
    {
        Matrix2x2 { r0: self.r0.add(rhs.r0), r1: self.r1.add(rhs.r1) }
    }

    pub fn sub(self, rhs: Self) -> (r: Self)
        ensures
            r == self.sub_spec(rhs),
    {
        Matrix2x2 { r0: self.r0.sub(rhs.r0), r1: self.r1.sub(rhs.r1) }
    }

    pub fn mul(self, rhs: Self) -> (r: Self)
        ensures
            r == self.mul_spec(rhs),
    {
        Matrix2x2 {
            r0: Vec2 {
                x: self.r0.x.mul(rhs.r0.x).add(self.r0.y.mul(rhs.r1.x)),
                y: self.r0.x.mul(rhs.r0.y).add(self.r0.y.mul(rhs.r1.y)),
            },
            r1: Vec2 {
                x: self.r1.x.mul(rhs.r0.x).add(self.r1.y.mul(rhs.r1.x)),
                y: self.r1.x.mul(rhs.r0.y).add(self.r1.y.mul(rhs.r1.y)),
            },
        }
    }
}

impl<S: Scalar> Matrix3x3<S> {
    /// Rows and columns swapped.
    pub open spec fn transpose_spec(self) -> Matrix3x3<S> {
        Matrix3x3 {
            r0: Vec3 { x: self.r0.x, y: self.r1.x, z: self.r2.x },
            r1: Vec3 { x: self.r0.y, y: self.r1.y, z: self.r2.y },
            r2: Vec3 { x: self.r0.z, y: self.r1.z, z: self.r2.z },
        }
    }

    /// The elementwise sum.
    pub open spec fn add_spec(self, rhs: Matrix3x3<S>) -> Matrix3x3<S> {
        Matrix3x3 {
            r0: Vec3 {
                x: self.r0.x.add_spec(rhs.r0.x),
                y: self.r0.y.add_spec(rhs.r0.y),
                z: self.r0.z.add_spec(rhs.r0.z),
            },
            r1: Vec3 {
                x: self.r1.x.add_spec(rhs.r1.x),
                y: self.r1.y.add_spec(rhs.r1.y),
                z: self.r1.z.add_spec(rhs.r1.z),
            },
            r2: Vec3 {
                x: self.r2.x.add_spec(rhs.r2.x),
                y: self.r2.y.add_spec(rhs.r2.y),
                z: self.r2.z.add_spec(rhs.r2.z),
            },
        }
    }

    /// The elementwise difference.
    pub open spec fn sub_spec(self, rhs: Matrix3x3<S>) -> Matrix3x3<S> {
        Matrix3x3 {
            r0: Vec3 {
                x: self.r0.x.sub_spec(rhs.r0.x),
                y: self.r0.y.sub_spec(rhs.r0.y),
                z: self.r0.z.sub_spec(rhs.r0.z),
            },
            r1: Vec3 {
                x: self.r1.x.sub_spec(rhs.r1.x),
                y: self.r1.y.sub_spec(rhs.r1.y),
                z: self.r1.z.sub_spec(rhs.r1.z),
            },
            r2: Vec3 {
                x: self.r2.x.sub_spec(rhs.r2.x),
                y: self.r2.y.sub_spec(rhs.r2.y),
                z: self.r2.z.sub_spec(rhs.r2.z),
            },
        }
    }

    /// The rotation about the first axis: sine and cosine of the
    /// radian-normalized angle in the lower-right block.
    pub open spec fn x_rotation_spec(theta: Angle<S>) -> Matrix3x3<S> {
        let sin = theta.take_radians_spec().sine_spec();
        let cos = theta.take_radians_spec().cosine_spec();
        Matrix3x3 {
            r0: Vec3 { x: S::one_spec(), y: S::zero_spec(), z: S::zero_spec() },
            r1: Vec3 { x: S::zero_spec(), y: cos, z: sin.neg_spec() },
            r2: Vec3 { x: S::zero_spec(), y: sin, z: cos },
        }
    }

    /// The rotation about the second axis.
    pub open spec fn y_rotation_spec(theta: Angle<S>) -> Matrix3x3<S> {
        let sin = theta.take_radians_spec().sine_spec();
        let cos = theta.take_radians_spec().cosine_spec();
        Matrix3x3 {
            r0: Vec3 { x: cos, y: S::zero_spec(), z: sin },
            r1: Vec3 { x: S::zero_spec(), y: S::one_spec(), z: S::zero_spec() },
            r2: Vec3 { x: sin.neg_spec(), y: S::zero_spec(), z: cos },
        }
    }

    /// The rotation about the third axis.
    pub open spec fn z_rotation_spec(theta: Angle<S>) -> Matrix3x3<S> {
        let sin = theta.take_radians_spec().sine_spec();
        let cos = theta.take_radians_spec().cosine_spec();
        Matrix3x3 {
            r0: Vec3 { x: cos, y: sin.neg_spec(), z: S::zero_spec() },
            r1: Vec3 { x: sin, y: cos, z: S::zero_spec() },
            r2: Vec3 { x: S::zero_spec(), y: S::zero_spec(), z: S::one_spec() },
        }
    }

    /// The composed rotation in `ZYX` order: the yaw rotation about
    /// the third axis, then pitch about the second, then roll about
    /// the first, all taken in radians.
    pub open spec fn rotation_zyx_spec(euler: Euler<S>) -> Matrix3x3<S> {
        let taken = euler.to_radians_spec().take_spec();
        let roll = taken.0;
        let pitch = taken.1;
        let yaw = taken.2;
        let yaw_sin = yaw.sine_spec();
        let yaw_cos = yaw.cosine_spec();
        let pitch_sin = pitch.sine_spec();
        let pitch_cos = pitch.cosine_spec();
        let roll_sin = roll.sine_spec();
        let roll_cos = roll.cosine_spec();
        Matrix3x3 {
            r0: Vec3 {
                x: yaw_cos.mul_spec(pitch_cos),
                y: yaw_cos.mul_spec(pitch_sin).mul_spec(roll_sin).sub_spec(
                    yaw_sin.mul_spec(roll_cos),
                ),
                z: yaw_cos.mul_spec(pitch_sin).mul_spec(roll_cos).add_spec(
                    yaw_sin.mul_spec(roll_sin),
                ),
            },
            r1: Vec3 {
                x: yaw_sin.mul_spec(pitch_cos),
                y: yaw_sin.mul_spec(pitch_sin).mul_spec(roll_sin).add_spec(
                    yaw_cos.mul_spec(roll_cos),
                ),
                z: yaw_sin.mul_spec(pitch_sin).mul_spec(roll_cos).sub_spec(
                    yaw_cos.mul_spec(roll_sin),
                ),
            },
            r2: Vec3 {
                x: pitch_sin.neg_spec(),
                y: pitch_cos.mul_spec(roll_sin),
                z: pitch_cos.mul_spec(roll_cos),
            },
        }
    }

    /// The rotation matrix of a quaternion, by the standard closed
    /// form.
    pub open spec fn from_quat_spec(q: Quaternion<S>) -> Matrix3x3<S> {
        let q0 = q.w;
        let q1 = q.xyz.x;
        let q2 = q.xyz.y;
        let q3 = q.xyz.z;
        let one = S::one_spec();
        let two = S::two_spec();
        Matrix3x3 {
            r0: Vec3 {
                x: one.sub_spec(
                    two.mul_spec(
                        q2.power_f_spec(S::two_spec()).add_spec(q3.power_f_spec(S::two_spec())),
                    ),
                ),
                y: two.mul_spec(q1.mul_spec(q2).sub_spec(q0.mul_spec(q3))),
                z: two.mul_spec(q1.mul_spec(q3).add_spec(q0.mul_spec(q2))),
            },
            r1: Vec3 {
                x: two.mul_spec(q1.mul_spec(q2).add_spec(q0.mul_spec(q3))),
                y: one.sub_spec(
                    two.mul_spec(
                        q1.power_f_spec(S::two_spec()).add_spec(q3.power_f_spec(S::two_spec())),
                    ),
                ),
                z: two.mul_spec(q2.mul_spec(q3).sub_spec(q0.mul_spec(q1))),
            },
            r2: Vec3 {
                x: two.mul_spec(q1.mul_spec(q3).sub_spec(q0.mul_spec(q2))),
                y: two.mul_spec(q2.mul_spec(q3).add_spec(q0.mul_spec(q1))),
                z: one.sub_spec(
                    two.mul_spec(
                        q1.power_f_spec(S::two_spec()).add_spec(q2.power_f_spec(S::two_spec())),
                    ),
                ),
            },
        }
    }

    pub fn from_array(array: [Vec3<S>; 3]) -> (r: Self)
        ensures
            r.r0 == array@[0],
            r.r1 == array@[1],
            r.r2 == array@[2],
    {
        Matrix3x3 { r0: array[0], r1: array[1], r2: array[2] }
    }

    /// The matrix of zeros.
    pub fn zero() -> (r: Self)
        ensures
            r == (Matrix3x3 {
                r0: Vec3 { x: S::zero_spec(), y: S::zero_spec(), z: S::zero_spec() },
                r1: Vec3 { x: S::zero_spec(), y: S::zero_spec(), z: S::zero_spec() },
                r2: Vec3 { x: S::zero_spec(), y: S::zero_spec(), z: S::zero_spec() },
            }),
    {
        Matrix3x3 { r0: Vec3::zero(), r1: Vec3::zero(), r2: Vec3::zero() }
    }

    /// The matrix of ones.
    pub fn one() -> (r: Self)
        ensures
            r == (Matrix3x3 {
                r0: Vec3 { x: S::one_spec(), y: S::one_spec(), z: S::one_spec() },
                r1: Vec3 { x: S::one_spec(), y: S::one_spec(), z: S::one_spec() },
                r2: Vec3 { x: S::one_spec(), y: S::one_spec(), z: S::one_spec() },
            }),
    {
        Matrix3x3 { r0: Vec3::one(), r1: Vec3::one(), r2: Vec3::one() }
    }

    pub fn transpose(&self) -> (r: Self)
        ensures
            r == self.transpose_spec(),
    {
        Matrix3x3 {
            r0: Vec3 { x: self.r0.x, y: self.r1.x, z: self.r2.x },
            r1: Vec3 { x: self.r0.y, y: self.r1.y, z: self.r2.y },
            r2: Vec3 { x: self.r0.z, y: self.r1.z, z: self.r2.z },
        }
    }

    pub fn add(self, rhs: Self) -> (r: Self)
        ensures
            r == self.add_spec(rhs),
    {
        Matrix3x3 { r0: self.r0.add(rhs.r0), r1: self.r1.add(rhs.r1), r2: self.r2.add(rhs.r2) }
    }

    pub fn sub(self, rhs: Self) -> (r: Self)
        ensures
            r == self.sub_spec(rhs),
    {
        Matrix3x3 { r0: self.r0.sub(rhs.r0), r1: self.r1.sub(rhs.r1), r2: self.r2.sub(rhs.r2) }
    }

    /// The rotation about the first axis.
    pub fn x_rotation(theta: Angle<S>) -> (r: Self)
        ensures
            r == Matrix3x3::x_rotation_spec(theta),
    {
        let sc = theta.to_radians().sin_cos();
        let sin = sc.0;
        let cos = sc.1;
        Matrix3x3 {
            r0: Vec3 { x: S::one(), y: S::zero(), z: S::zero() },
            r1: Vec3 { x: S::zero(), y: cos, z: sin.neg() },
            r2: Vec3 { x: S::zero(), y: sin, z: cos },
        }
    }

    /// The rotation about the second axis.
    pub fn y_rotation(theta: Angle<S>) -> (r: Self)
        ensures
            r == Matrix3x3::y_rotation_spec(theta),
    {
        let sc = theta.to_radians().sin_cos();
        let sin = sc.0;
        let cos = sc.1;
        Matrix3x3 {
            r0: Vec3 { x: cos, y: S::zero(), z: sin },
            r1: Vec3 { x: S::zero(), y: S::one(), z: S::zero() },
            r2: Vec3 { x: sin.neg(), y: S::zero(), z: cos },
        }
    }

    /// The rotation about the third axis.
    pub fn z_rotation(theta: Angle<S>) -> (r: Self)
        ensures
            r == Matrix3x3::z_rotation_spec(theta),
    {
        let sc = theta.to_radians().sin_cos();
        let sin = sc.0;
        let cos = sc.1;
        Matrix3x3 {
            r0: Vec3 { x: cos, y: sin.neg(), z: S::zero() },
            r1: Vec3 { x: sin, y: cos, z: S::zero() },
            r2: Vec3 { x: S::zero(), y: S::zero(), z: S::one() },
        }
    }

    /// The composed rotation from a full Euler triple. Only the `ZYX`
    /// order is implemented; the other order is answered by the
    /// explicit unsupported-order error.
    pub fn rotation(euler: Euler<S>, rotation_order: RotationOrder) -> (r: Result<
        Self,
        RotationError,
    >)
        ensures
            rotation_order is ZYX ==> r == Ok::<Self, RotationError>(
                Matrix3x3::rotation_zyx_spec(euler),
            ),
            rotation_order is XYZ ==> r == Err::<Self, RotationError>(
                RotationError::UnsupportedOrder,
            ),
    {
        match rotation_order {
            RotationOrder::ZYX => {
                let taken = euler.take_radians();
                let roll = taken.0;
                let pitch = taken.1;
                let yaw = taken.2;

                let yaw_sin = yaw.sine();
                let yaw_cos = yaw.cosine();
                let pitch_sin = pitch.sine();
                let pitch_cos = pitch.cosine();
                let roll_sin = roll.sine();
                let roll_cos = roll.cosine();

                Ok(
                    Matrix3x3 {
                        r0: Vec3 {
                            x: yaw_cos.mul(pitch_cos),
                            y: yaw_cos.mul(pitch_sin).mul(roll_sin).sub(yaw_sin.mul(roll_cos)),
                            z: yaw_cos.mul(pitch_sin).mul(roll_cos).add(yaw_sin.mul(roll_sin)),
                        },
                        r1: Vec3 {
                            x: yaw_sin.mul(pitch_cos),
                            y: yaw_sin.mul(pitch_sin).mul(roll_sin).add(yaw_cos.mul(roll_cos)),
                            z: yaw_sin.mul(pitch_sin).mul(roll_cos).sub(yaw_cos.mul(roll_sin)),
                        },
                        r2: Vec3 {
                            x: pitch_sin.neg(),
                            y: pitch_cos.mul(roll_sin),
                            z: pitch_cos.mul(roll_cos),
                        },
                    },
                )
            },
            RotationOrder::XYZ => Err(RotationError::UnsupportedOrder),
        }
    }
}

impl<S: Scalar> Matrix4x4<S> {
    /// Rows and columns swapped.
    pub open spec fn transpose_spec(self) -> Matrix4x4<S> {
        Matrix4x4 {
            r0: Vec4 { x: self.r0.x, y: self.r1.x, z: self.r2.x, w: self.r3.x },
            r1: Vec4 { x: self.r0.y, y: self.r1.y, z: self.r2.y, w: self.r3.y },
            r2: Vec4 { x: self.r0.z, y: self.r1.z, z: self.r2.z, w: self.r3.z },
            r3: Vec4 { x: self.r0.w, y: self.r1.w, z: self.r2.w, w: self.r3.w },
        }
    }

    /// The elementwise sum.
    pub open spec fn add_spec(self, rhs: Matrix4x4<S>) -> Matrix4x4<S> {
        Matrix4x4 {
            r0: Vec4 {
                x: self.r0.x.add_spec(rhs.r0.x),
                y: self.r0.y.add_spec(rhs.r0.y),
                z: self.r0.z.add_spec(rhs.r0.z),
                w: self.r0.w.add_spec(rhs.r0.w),
            },
            r1: Vec4 {
                x: self.r1.x.add_spec(rhs.r1.x),
                y: self.r1.y.add_spec(rhs.r1.y),
                z: self.r1.z.add_spec(rhs.r1.z),
                w: self.r1.w.add_spec(rhs.r1.w),
            },
            r2: Vec4 {
                x: self.r2.x.add_spec(rhs.r2.x),
                y: self.r2.y.add_spec(rhs.r2.y),
                z: self.r2.z.add_spec(rhs.r2.z),
                w: self.r2.w.add_spec(rhs.r2.w),
            },
            r3: Vec4 {
                x: self.r3.x.add_spec(rhs.r3.x),
                y: self.r3.y.add_spec(rhs.r3.y),
                z: self.r3.z.add_spec(rhs.r3.z),
                w: self.r3.w.add_spec(rhs.r3.w),
            },
        }
    }

    /// The elementwise difference.
    pub open spec fn sub_spec(self, rhs: Matrix4x4<S>) -> Matrix4x4<S> {
        Matrix4x4 {
            r0: Vec4 {
                x: self.r0.x.sub_spec(rhs.r0.x),
                y: self.r0.y.sub_spec(rhs.r0.y),
                z: self.r0.z.sub_spec(rhs.r0.z),
                w: self.r0.w.sub_spec(rhs.r0.w),
            },
            r1: Vec4 {
                x: self.r1.x.sub_spec(rhs.r1.x),
                y: self.r1.y.sub_spec(rhs.r1.y),
                z: self.r1.z.sub_spec(rhs.r1.z),
                w: self.r1.w.sub_spec(rhs.r1.w),
            },
            r2: Vec4 {
                x: self.r2.x.sub_spec(rhs.r2.x),
                y: self.r2.y.sub_spec(rhs.r2.y),
                z: self.r2.z.sub_spec(rhs.r2.z),
                w: self.r2.w.sub_spec(rhs.r2.w),
            },
            r3: Vec4 {
                x: self.r3.x.sub_spec(rhs.r3.x),
                y: self.r3.y.sub_spec(rhs.r3.y),
                z: self.r3.z.sub_spec(rhs.r3.z),
                w: self.r3.w.sub_spec(rhs.r3.w),
            },
        }
    }

    /// The homogeneous translation by `v`.
    pub open spec fn translation_spec(v: Vec3<S>) -> Matrix4x4<S> {
        Matrix4x4 {
            r0: Vec4 { x: S::one_spec(), y: S::zero_spec(), z: S::zero_spec(), w: v.x },
            r1: Vec4 { x: S::zero_spec(), y: S::one_spec(), z: S::zero_spec(), w: v.y },
            r2: Vec4 { x: S::zero_spec(), y: S::zero_spec(), z: S::one_spec(), w: v.z },
            r3: Vec4 { x: S::zero_spec(), y: S::zero_spec(), z: S::zero_spec(), w: S::one_spec() },
        }
    }

    /// The homogeneous scale by `v`.
    pub open spec fn scale_spec(v: Vec3<S>) -> Matrix4x4<S> {
        Matrix4x4 {
            r0: Vec4 { x: v.x, y: S::zero_spec(), z: S::zero_spec(), w: S::zero_spec() },
            r1: Vec4 { x: S::zero_spec(), y: v.y, z: S::zero_spec(), w: S::zero_spec() },
            r2: Vec4 { x: S::zero_spec(), y: S::zero_spec(), z: v.z, w: S::zero_spec() },
            r3: Vec4 { x: S::zero_spec(), y: S::zero_spec(), z: S::zero_spec(), w: S::one_spec() },
        }
    }

    /// The right-handed perspective projection, with `t` the tangent
    /// of half the field of view taken in radians.
    pub open spec fn perspective_spec(aspect_ratio: S, fov: Angle<S>, near: S, far: S)
        -> Matrix4x4<S> {
        let t = fov.take_radians_spec().div_spec(S::two_spec()).tangent_spec();
        Matrix4x4 {
            r0: Vec4 {
                x: S::one_spec().div_spec(aspect_ratio.mul_spec(t)),
                y: S::zero_spec(),
                z: S::zero_spec(),
                w: S::zero_spec(),
            },
            r1: Vec4 {
                x: S::zero_spec(),
                y: S::one_spec().div_spec(t),
                z: S::zero_spec(),
                w: S::zero_spec(),
            },
            r2: Vec4 {
                x: S::zero_spec(),
                y: S::zero_spec(),
                z: far.add_spec(near).neg_spec().div_spec(far.sub_spec(near)),
                w: S::two_spec().mul_spec(far).mul_spec(near).neg_spec().div_spec(
                    far.sub_spec(near),
                ),
            },
            r3: Vec4 {
                x: S::zero_spec(),
                y: S::zero_spec(),
                z: S::one_spec().neg_spec(),
                w: S::zero_spec(),
            },
        }
    }

    /// The right-handed orthographic projection of the box bounded by
    /// the six planes.
    pub open spec fn ortho_spec(left: S, right: S, bottom: S, top: S, near: S, far: S)
        -> Matrix4x4<S> {
        Matrix4x4 {
            r0: Vec4 {
                x: S::two_spec().div_spec(right.sub_spec(left)),
                y: S::zero_spec(),
                z: S::zero_spec(),
                w: right.add_spec(left).neg_spec().div_spec(right.sub_spec(left)),
            },
            r1: Vec4 {
                x: S::zero_spec(),
                y: S::two_spec().div_spec(top.sub_spec(bottom)),
                z: S::zero_spec(),
                w: top.add_spec(bottom).neg_spec().div_spec(top.sub_spec(bottom)),
            },
            r2: Vec4 {
                x: S::zero_spec(),
                y: S::zero_spec(),
                z: S::two_spec().neg_spec().div_spec(far.sub_spec(near)),
                w: far.add_spec(near).neg_spec().div_spec(far.sub_spec(near)),
            },
            r3: Vec4 {
                x: S::zero_spec(),
                y: S::zero_spec(),
                z: S::zero_spec(),
                w: S::one_spec(),
            },
        }
    }

    /// The view matrix: the orthonormal basis built from the
    /// normalized forward direction, its cross product with `up`, and
    /// the recomputed up vector, with the eye projected onto it.
    pub open spec fn look_at_spec(eye: Vec3<S>, center: Vec3<S>, up: Vec3<S>) -> Matrix4x4<S> {
        let f = center.sub_vec_spec(eye).normalized_spec();
        let s = f.cross_spec(up).normalized_spec();
        let u = s.cross_spec(f);
        Matrix4x4 {
            r0: Vec4 { x: s.x, y: u.x, z: f.x.neg_spec(), w: S::zero_spec() },
            r1: Vec4 { x: s.y, y: u.y, z: f.y.neg_spec(), w: S::zero_spec() },
            r2: Vec4 { x: s.z, y: u.z, z: f.z.neg_spec(), w: S::zero_spec() },
            r3: Vec4 {
                x: s.dot_spec(eye).neg_spec(),
                y: u.dot_spec(eye).neg_spec(),
                z: f.dot_spec(eye),
                w: S::one_spec(),
            },
        }
    }

    /// The rotation matrix of a quaternion padded with the identity
    /// row and column.
    pub open spec fn from_quat_spec(q: Quaternion<S>) -> Matrix4x4<S> {
        let m = Matrix3x3::from_quat_spec(q);
        Matrix4x4 {
            r0: Vec4 { x: m.r0.x, y: m.r0.y, z: m.r0.z, w: S::zero_spec() },
            r1: Vec4 { x: m.r1.x, y: m.r1.y, z: m.r1.z, w: S::zero_spec() },
            r2: Vec4 { x: m.r2.x, y: m.r2.y, z: m.r2.z, w: S::zero_spec() },
            r3: Vec4 { x: S::zero_spec(), y: S::zero_spec(), z: S::zero_spec(), w: S::one_spec() },
        }
    }

    pub fn from_array(array: [Vec4<S>; 4]) -> (r: Self)
        ensures
            r.r0 == array@[0],
            r.r1 == array@[1],
            r.r2 == array@[2],
            r.r3 == array@[3],
    {
        Matrix4x4 { r0: array[0], r1: array[1], r2: array[2], r3: array[3] }
    }

    /// The matrix of zeros.
    pub fn zero() -> (r: Self)
        ensures
            r == (Matrix4x4 {
                r0: Vec4 { x: S::zero_spec(), y: S::zero_spec(), z: S::zero_spec(), w: S::zero_spec() },
                r1: Vec4 { x: S::zero_spec(), y: S::zero_spec(), z: S::zero_spec(), w: S::zero_spec() },
                r2: Vec4 { x: S::zero_spec(), y: S::zero_spec(), z: S::zero_spec(), w: S::zero_spec() },
                r3: Vec4 { x: S::zero_spec(), y: S::zero_spec(), z: S::zero_spec(), w: S::zero_spec() },
            }),
    {
        Matrix4x4 { r0: Vec4::zero(), r1: Vec4::zero(), r2: Vec4::zero(), r3: Vec4::zero() }
    }

    /// The matrix of ones.
    pub fn one() -> (r: Self)
        ensures
            r == (Matrix4x4 {
                r0: Vec4 { x: S::one_spec(), y: S::one_spec(), z: S::one_spec(), w: S::one_spec() },
                r1: Vec4 { x: S::one_spec(), y: S::one_spec(), z: S::one_spec(), w: S::one_spec() },
                r2: Vec4 { x: S::one_spec(), y: S::one_spec(), z: S::one_spec(), w: S::one_spec() },
                r3: Vec4 { x: S::one_spec(), y: S::one_spec(), z: S::one_spec(), w: S::one_spec() },
            }),
    {
        Matrix4x4 { r0: Vec4::one(), r1: Vec4::one(), r2: Vec4::one(), r3: Vec4::one() }
    }

    pub fn transpose(&self) -> (r: Self)
        ensures
            r == self.transpose_spec(),
    {
        Matrix4x4 {
            r0: Vec4 { x: self.r0.x, y: self.r1.x, z: self.r2.x, w: self.r3.x },
            r1: Vec4 { x: self.r0.y, y: self.r1.y, z: self.r2.y, w: self.r3.y },
            r2: Vec4 { x: self.r0.z, y: self.r1.z, z: self.r2.z, w: self.r3.z },
            r3: Vec4 { x: self.r0.w, y: self.r1.w, z: self.r2.w, w: self.r3.w },
        }
    }

    pub fn add(self, rhs: Self) -> (r: Self)
        ensures
            r == self.add_spec(rhs),
    {
        Matrix4x4 {
            r0: self.r0.add(rhs.r0),
            r1: self.r1.add(rhs.r1),
            r2: self.r2.add(rhs.r2),
            r3: self.r3.add(rhs.r3),
        }
    }

    pub fn sub(self, rhs: Self) -> (r: Self)
        ensures
            r == self.sub_spec(rhs),
    {
        Matrix4x4 {
            r0: self.r0.sub(rhs.r0),
            r1: self.r1.sub(rhs.r1),
            r2: self.r2.sub(rhs.r2),
            r3: self.r3.sub(rhs.r3),
        }
    }

    /// The homogeneous translation by `v`.
    pub fn translation(v: Vec3<S>) -> (r: Self)
        ensures
            r == Matrix4x4::translation_spec(v),
    {
        Matrix4x4 {
            r0: Vec4 { x: S::one(), y: S::zero(), z: S::zero(), w: v.x },
            r1: Vec4 { x: S::zero(), y: S::one(), z: S::zero(), w: v.y },
            r2: Vec4 { x: S::zero(), y: S::zero(), z: S::one(), w: v.z },
            r3: Vec4 { x: S::zero(), y: S::zero(), z: S::zero(), w: S::one() },
        }
    }

    /// The homogeneous scale by `v`.
    pub fn scale(v: Vec3<S>) -> (r: Self)
        ensures
            r == Matrix4x4::scale_spec(v),
    {
        Matrix4x4 {
            r0: Vec4 { x: v.x, y: S::zero(), z: S::zero(), w: S::zero() },
            r1: Vec4 { x: S::zero(), y: v.y, z: S::zero(), w: S::zero() },
            r2: Vec4 { x: S::zero(), y: S::zero(), z: v.z, w: S::zero() },
            r3: Vec4 { x: S::zero(), y: S::zero(), z: S::zero(), w: S::one() },
        }
    }

    /// The right-handed perspective projection.
    pub fn perspective(aspect_ratio: S, fov: Angle<S>, near: S, far: S) -> (r: Self)
        ensures
            r == Matrix4x4::perspective_spec(aspect_ratio, fov, near, far),
    {
        let t = fov.to_radians().take().div(S::two()).tangent();
        Matrix4x4 {
            r0: Vec4 {
                x: S::one().div(aspect_ratio.mul(t)),
                y: S::zero(),
                z: S::zero(),
                w: S::zero(),
            },
            r1: Vec4 { x: S::zero(), y: S::one().div(t), z: S::zero(), w: S::zero() },
            r2: Vec4 {
                x: S::zero(),
                y: S::zero(),
                z: far.add(near).neg().div(far.sub(near)),
                w: S::two().mul(far).mul(near).neg().div(far.sub(near)),
            },
            r3: Vec4 { x: S::zero(), y: S::zero(), z: S::one().neg(), w: S::zero() },
        }
    }

    /// The right-handed orthographic projection.
    pub fn ortho(left: S, right: S, bottom: S, top: S, near: S, far: S) -> (r: Self)
        ensures
            r == Matrix4x4::ortho_spec(left, right, bottom, top, near, far),
    {
        Matrix4x4 {
            r0: Vec4 {
                x: S::two().div(right.sub(left)),
                y: S::zero(),
                z: S::zero(),
                w: right.add(left).neg().div(right.sub(left)),
            },
            r1: Vec4 {
                x: S::zero(),
                y: S::two().div(top.sub(bottom)),
                z: S::zero(),
                w: top.add(bottom).neg().div(top.sub(bottom)),
            },
            r2: Vec4 {
                x: S::zero(),
                y: S::zero(),
                z: S::two().neg().div(far.sub(near)),
                w: far.add(near).neg().div(far.sub(near)),
            },
            r3: Vec4 { x: S::zero(), y: S::zero(), z: S::zero(), w: S::one() },
        }
    }

    /// The right-handed view matrix looking from `eye` toward
    /// `center` with the given up hint.
    pub fn look_at(eye: &Vec3<S>, center: &Vec3<S>, up: &Vec3<S>) -> (r: Self)
        ensures
            r == Matrix4x4::look_at_spec(*eye, *center, *up),
    {
        let f = center.sub(*eye).normalized();
        let s = f.cross(up).normalized();
        let u = s.cross(&f);

        Matrix4x4 {
            r0: Vec4 { x: s.x, y: u.x, z: f.x.neg(), w: S::zero() },
            r1: Vec4 { x: s.y, y: u.y, z: f.y.neg(), w: S::zero() },
            r2: Vec4 { x: s.z, y: u.z, z: f.z.neg(), w: S::zero() },
            r3: Vec4 {
                x: s.dot_product(eye).neg(),
                y: u.dot_product(eye).neg(),
                z: f.dot_product(eye),
                w: S::one(),
            },
        }
    }

    /// The row-by-column product.
    pub open spec fn mul_spec(self, rhs: Matrix4x4<S>) -> Matrix4x4<S> {
        Matrix4x4 {
            r0: Vec4 {
                x: self.r0.x.mul_spec(rhs.r0.x).add_spec(self.r0.y.mul_spec(rhs.r1.x)).add_spec(
                    self.r0.z.mul_spec(rhs.r2.x),
                ).add_spec(self.r0.w.mul_spec(rhs.r3.x)),
                y: self.r0.x.mul_spec(rhs.r0.y).add_spec(self.r0.y.mul_spec(rhs.r1.y)).add_spec(
                    self.r0.z.mul_spec(rhs.r2.y),
                ).add_spec(self.r0.w.mul_spec(rhs.r3.y)),
                z: self.r0.x.mul_spec(rhs.r0.z).add_spec(self.r0.y.mul_spec(rhs.r1.z)).add_spec(
                    self.r0.z.mul_spec(rhs.r2.z),
                ).add_spec(self.r0.w.mul_spec(rhs.r3.z)),
                w: self.r0.x.mul_spec(rhs.r0.w).add_spec(self.r0.y.mul_spec(rhs.r1.w)).add_spec(
                    self.r0.z.mul_spec(rhs.r2.w),
                ).add_spec(self.r0.w.mul_spec(rhs.r3.w)),
            },
            r1: Vec4 {
                x: self.r1.x.mul_spec(rhs.r0.x).add_spec(self.r1.y.mul_spec(rhs.r1.x)).add_spec(
                    self.r1.z.mul_spec(rhs.r2.x),
                ).add_spec(self.r1.w.mul_spec(rhs.r3.x)),
                y: self.r1.x.mul_spec(rhs.r0.y).add_spec(self.r1.y.mul_spec(rhs.r1.y)).add_spec(
                    self.r1.z.mul_spec(rhs.r2.y),
                ).add_spec(self.r1.w.mul_spec(rhs.r3.y)),
                z: self.r1.x.mul_spec(rhs.r0.z).add_spec(self.r1.y.mul_spec(rhs.r1.z)).add_spec(
                    self.r1.z.mul_spec(rhs.r2.z),
                ).add_spec(self.r1.w.mul_spec(rhs.r3.z)),
                w: self.r1.x.mul_spec(rhs.r0.w).add_spec(self.r1.y.mul_spec(rhs.r1.w)).add_spec(
                    self.r1.z.mul_spec(rhs.r2.w),
                ).add_spec(self.r1.w.mul_spec(rhs.r3.w)),
            },
            r2: Vec4 {
                x: self.r2.x.mul_spec(rhs.r0.x).add_spec(self.r2.y.mul_spec(rhs.r1.x)).add_spec(
                    self.r2.z.mul_spec(rhs.r2.x),
                ).add_spec(self.r2.w.mul_spec(rhs.r3.x)),
                y: self.r2.x.mul_spec(rhs.r0.y).add_spec(self.r2.y.mul_spec(rhs.r1.y)).add_spec(
                    self.r2.z.mul_spec(rhs.r2.y),
                ).add_spec(self.r2.w.mul_spec(rhs.r3.y)),
                z: self.r2.x.mul_spec(rhs.r0.z).add_spec(self.r2.y.mul_spec(rhs.r1.z)).add_spec(
                    self.r2.z.mul_spec(rhs.r2.z),
                ).add_spec(self.r2.w.mul_spec(rhs.r3.z)),
                w: self.r2.x.mul_spec(rhs.r0.w).add_spec(self.r2.y.mul_spec(rhs.r1.w)).add_spec(
                    self.r2.z.mul_spec(rhs.r2.w),
                ).add_spec(self.r2.w.mul_spec(rhs.r3.w)),
            },
            r3: Vec4 {
                x: self.r3.x.mul_spec(rhs.r0.x).add_spec(self.r3.y.mul_spec(rhs.r1.x)).add_spec(
                    self.r3.z.mul_spec(rhs.r2.x),
                ).add_spec(self.r3.w.mul_spec(rhs.r3.x)),
                y: self.r3.x.mul_spec(rhs.r0.y).add_spec(self.r3.y.mul_spec(rhs.r1.y)).add_spec(
                    self.r3.z.mul_spec(rhs.r2.y),
                ).add_spec(self.r3.w.mul_spec(rhs.r3.y)),
                z: self.r3.x.mul_spec(rhs.r0.z).add_spec(self.r3.y.mul_spec(rhs.r1.z)).add_spec(
                    self.r3.z.mul_spec(rhs.r2.z),
                ).add_spec(self.r3.w.mul_spec(rhs.r3.z)),
                w: self.r3.x.mul_spec(rhs.r0.w).add_spec(self.r3.y.mul_spec(rhs.r1.w)).add_spec(
                    self.r3.z.mul_spec(rhs.r2.w),
                ).add_spec(self.r3.w.mul_spec(rhs.r3.w)),
            },
        }
    }

    /// The row-by-column product.
    pub fn mul(self, rhs: Self) -> (r: Self)
        ensures
            r == self.mul_spec(rhs),
    {
        Matrix4x4 {
            r0: Vec4 {
                x: self.r0.x.mul(rhs.r0.x).add(self.r0.y.mul(rhs.r1.x)).add(
                    self.r0.z.mul(rhs.r2.x),
                ).add(self.r0.w.mul(rhs.r3.x)),
                y: self.r0.x.mul(rhs.r0.y).add(self.r0.y.mul(rhs.r1.y)).add(
                    self.r0.z.mul(rhs.r2.y),
                ).add(self.r0.w.mul(rhs.r3.y)),
                z: self.r0.x.mul(rhs.r0.z).add(self.r0.y.mul(rhs.r1.z)).add(
                    self.r0.z.mul(rhs.r2.z),
                ).add(self.r0.w.mul(rhs.r3.z)),
                w: self.r0.x.mul(rhs.r0.w).add(self.r0.y.mul(rhs.r1.w)).add(
                    self.r0.z.mul(rhs.r2.w),
                ).add(self.r0.w.mul(rhs.r3.w)),
            },
            r1: Vec4 {
                x: self.r1.x.mul(rhs.r0.x).add(self.r1.y.mul(rhs.r1.x)).add(
                    self.r1.z.mul(rhs.r2.x),
                ).add(self.r1.w.mul(rhs.r3.x)),
                y: self.r1.x.mul(rhs.r0.y).add(self.r1.y.mul(rhs.r1.y)).add(
                    self.r1.z.mul(rhs.r2.y),
                ).add(self.r1.w.mul(rhs.r3.y)),
                z: self.r1.x.mul(rhs.r0.z).add(self.r1.y.mul(rhs.r1.z)).add(
                    self.r1.z.mul(rhs.r2.z),
                ).add(self.r1.w.mul(rhs.r3.z)),
                w: self.r1.x.mul(rhs.r0.w).add(self.r1.y.mul(rhs.r1.w)).add(
                    self.r1.z.mul(rhs.r2.w),
                ).add(self.r1.w.mul(rhs.r3.w)),
            },
            r2: Vec4 {
                x: self.r2.x.mul(rhs.r0.x).add(self.r2.y.mul(rhs.r1.x)).add(
                    self.r2.z.mul(rhs.r2.x),
                ).add(self.r2.w.mul(rhs.r3.x)),
                y: self.r2.x.mul(rhs.r0.y).add(self.r2.y.mul(rhs.r1.y)).add(
                    self.r2.z.mul(rhs.r2.y),
                ).add(self.r2.w.mul(rhs.r3.y)),
                z: self.r2.x.mul(rhs.r0.z).add(self.r2.y.mul(rhs.r1.z)).add(
                    self.r2.z.mul(rhs.r2.z),
                ).add(self.r2.w.mul(rhs.r3.z)),
                w: self.r2.x.mul(rhs.r0.w).add(self.r2.y.mul(rhs.r1.w)).add(
                    self.r2.z.mul(rhs.r2.w),
                ).add(self.r2.w.mul(rhs.r3.w)),
            },
            r3: Vec4 {
                x: self.r3.x.mul(rhs.r0.x).add(self.r3.y.mul(rhs.r1.x)).add(
                    self.r3.z.mul(rhs.r2.x),
                ).add(self.r3.w.mul(rhs.r3.x)),
                y: self.r3.x.mul(rhs.r0.y).add(self.r3.y.mul(rhs.r1.y)).add(
                    self.r3.z.mul(rhs.r2.y),
                ).add(self.r3.w.mul(rhs.r3.y)),
                z: self.r3.x.mul(rhs.r0.z).add(self.r3.y.mul(rhs.r1.z)).add(
                    self.r3.z.mul(rhs.r2.z),
                ).add(self.r3.w.mul(rhs.r3.z)),
                w: self.r3.x.mul(rhs.r0.w).add(self.r3.y.mul(rhs.r1.w)).add(
                    self.r3.z.mul(rhs.r2.w),
                ).add(self.r3.w.mul(rhs.r3.w)),
            },
        }
    }
}

} // verus!
