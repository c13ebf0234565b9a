//! The scalar capability set that the whole kernel is generic over.
//!
//! A scalar is a numeric precision: the kernel never fixes one. Every
//! operation the algorithms need — the four arithmetic operators and
//! the remainder, comparison,
//! trigonometry, powers and roots, clamping and rounding, byte
//! conversion, named constants, degree/radian helpers and a canonical
//! rendering — appears here twice: as a specification function naming
//! the value the operation returns, and as an executable method whose
//! contract ties it to that name. All kernel contracts are stated over
//! the specification functions, so they pin each result down exactly,
//! relative to the scalar operations themselves.
//!
//! The embedding layer supplies one implementation per supported
//! precision; each executable method there must return exactly the
//! value its specification function stands for. Nothing further is
//! assumed: in particular no algebraic law (commutativity,
//! associativity, order totality) is postulated, since the supported
//! precisions do not satisfy them exactly.

use crate::interpolation::Interpolation;
use vstd::prelude::*;

verus! {

pub trait Scalar: Sized + Copy + Interpolation<Self> {
    /// The sum `self + rhs`.
    spec fn add_spec(self, rhs: Self) -> Self;

    /// The difference `self - rhs`.
    spec fn sub_spec(self, rhs: Self) -> Self;

    /// The product `self * rhs`.
    spec fn mul_spec(self, rhs: Self) -> Self;

    /// The quotient `self / rhs`.
    spec fn div_spec(self, rhs: Self) -> Self;

    /// The remainder `self % rhs`.
    spec fn rem_spec(self, rhs: Self) -> Self;

    /// The negation `-self`.
    spec fn neg_spec(self) -> Self;

    /// Whether `self` compares equal to `rhs`.
    spec fn eq_spec(self, rhs: Self) -> bool;

    /// Whether `self <= rhs`.
    spec fn le_spec(self, rhs: Self) -> bool;

    /// Whether `self >= rhs`.
    spec fn ge_spec(self, rhs: Self) -> bool;

    /// The sine of `self`, taken in radians.
    spec fn sine_spec(self) -> Self;

    /// The cosine of `self`, taken in radians.
    spec fn cosine_spec(self) -> Self;

    /// The tangent of `self`, taken in radians.
    spec fn tangent_spec(self) -> Self;

    /// The inverse sine of `self`, in radians.
    spec fn inverse_sine_spec(self) -> Self;

    /// The inverse cosine of `self`, in radians.
    spec fn inverse_cosine_spec(self) -> Self;

    /// `self` raised to the integer power `i`.
    spec fn power_i_spec(self, i: i32) -> Self;

    /// `self` raised to the scalar power `f`.
    spec fn power_f_spec(self, f: Self) -> Self;

    /// The square root of `self`.
    spec fn square_root2_spec(self) -> Self;

    /// `self`, read as degrees, converted to radians.
    spec fn rads_spec(self) -> Self;

    /// `self`, read as radians, converted to degrees.
    spec fn degs_spec(self) -> Self;

    /// `self` clamped into `[min, max]`.
    spec fn s_clamp_spec(self, min: Self, max: Self) -> Self;

    /// The greatest whole value at most `self`.
    spec fn s_floor_spec(self) -> Self;

    /// The least whole value at least `self`.
    spec fn s_ceil_spec(self) -> Self;

    /// The absolute value of `self`.
    spec fn s_abs_spec(self) -> Self;

    /// The scalar standing for the byte `value`.
    spec fn from_u8_spec(value: u8) -> Self;

    /// The scalar standing for the integer `value`.
    spec fn from_u16_spec(value: u16) -> Self;

    /// `self` converted to a byte, saturating at the byte range and
    /// rounding toward zero.
    spec fn to_u8_spec(self) -> u8;

    /// The constant zero.
    spec fn zero_spec() -> Self;

    /// The constant one.
    spec fn one_spec() -> Self;

    /// The constant two.
    spec fn two_spec() -> Self;

    /// The constant three.
    spec fn three_spec() -> Self;

    /// The constant four.
    spec fn four_spec() -> Self;

    /// The constant five.
    spec fn five_spec() -> Self;

    /// The constant negative one.
    spec fn neg_one_spec() -> Self;

    /// The circle constant pi.
    spec fn pi_spec() -> Self;

    /// The canonical rendering of `self`. It is a specification-level
    /// value: only its view is ever spoken of.
    spec fn render_spec(self) -> String;

    fn add(self, rhs: Self) -> (r: Self)
        ensures
            r == self.add_spec(rhs),
    ;

    fn sub(self, rhs: Self) -> (r: Self)
        ensures
            r == self.sub_spec(rhs),
    ;

    fn mul(self, rhs: Self) -> (r: Self)
        ensures
            r == self.mul_spec(rhs),
    ;

    fn div(self, rhs: Self) -> (r: Self)
        ensures
            r == self.div_spec(rhs),
    ;

    fn rem(self, rhs: Self) -> (r: Self)
        ensures
            r == self.rem_spec(rhs),
    ;

    fn neg(self) -> (r: Self)
        ensures
            r == self.neg_spec(),
    ;

    fn eq_s(self, rhs: Self) -> (r: bool)
        ensures
            r == self.eq_spec(rhs),
    ;

    fn le_s(self, rhs: Self) -> (r: bool)
        ensures
            r == self.le_spec(rhs),
    ;

    fn ge_s(self, rhs: Self) -> (r: bool)
        ensures
            r == self.ge_spec(rhs),
    ;

    fn sine(self) -> (r: Self)
        ensures
            r == self.sine_spec(),
    ;

    fn cosine(self) -> (r: Self)
        ensures
            r == self.cosine_spec(),
    ;

    fn tangent(self) -> (r: Self)
        ensures
            r == self.tangent_spec(),
    ;

    fn inverse_sine(self) -> (r: Self)
        ensures
            r == self.inverse_sine_spec(),
    ;

    fn inverse_cosine(self) -> (r: Self)
        ensures
            r == self.inverse_cosine_spec(),
    ;

    fn power_i(self, i: i32) -> (r: Self)
        ensures
            r == self.power_i_spec(i),
    ;

    fn power_f(self, f: Self) -> (r: Self)
        ensures
            r == self.power_f_spec(f),
    ;

    /// The second power, computed through `power_f`.
    fn squared(self) -> (r: Self)
        ensures
            r == self.power_f_spec(Self::two_spec()),
    {
        self.power_f(Self::two())
    }

    /// The square root computed through `power_f` with exponent a half.
    fn square_root(self) -> (r: Self)
        ensures
            r == self.power_f_spec(Self::one_spec().div_spec(Self::two_spec())),
    {
        self.power_f(Self::one().div(Self::two()))
    }

    fn square_root2(self) -> (r: Self)
        ensures
            r == self.square_root2_spec(),
    ;

    fn rads(self) -> (r: Self)
        ensures
            r == self.rads_spec(),
    ;

    fn degs(self) -> (r: Self)
        ensures
            r == self.degs_spec(),
    ;

    fn s_clamp(self, min: Self, max: Self) -> (r: Self)
        ensures
            r == self.s_clamp_spec(min, max),
    ;

    fn s_floor(self) -> (r: Self)
        ensures
            r == self.s_floor_spec(),
    ;

    fn s_ceil(self) -> (r: Self)
        ensures
            r == self.s_ceil_spec(),
    ;

    fn s_abs(self) -> (r: Self)
        ensures
            r == self.s_abs_spec(),
    ;

    fn from_u8(value: u8) -> (r: Self)
        ensures
            r == Self::from_u8_spec(value),
    ;

    fn from_u16(value: u16) -> (r: Self)
        ensures
            r == Self::from_u16_spec(value),
    ;

    fn to_u8(self) -> (r: u8)
        ensures
            r == self.to_u8_spec(),
    ;

    fn zero() -> (r: Self)
        ensures
            r == Self::zero_spec(),
    ;

    fn one() -> (r: Self)
        ensures
            r == Self::one_spec(),
    ;

    fn two() -> (r: Self)
        ensures
            r == Self::two_spec(),
    ;

    fn three() -> (r: Self)
        ensures
            r == Self::three_spec(),
    ;

    fn four() -> (r: Self)
        ensures
            r == Self::four_spec(),
    ;

    fn five() -> (r: Self)
        ensures
            r == Self::five_spec(),
    ;

    fn neg_one() -> (r: Self)
        ensures
            r == Self::neg_one_spec(),
    ;

    fn pi() -> (r: Self)
        ensures
            r == Self::pi_spec(),
    ;

    /// A short human-readable tag naming the precision.
    fn name_tag() -> String;

    fn render(self) -> (r: String)
        ensures
            r@ == self.render_spec()@,
    ;
}

/// The value of a linear interpolation between `a` and `b` at `t`:
/// `a + (b - a) * t`.
pub open spec fn lerp_spec<S: Scalar>(a: S, b: S, t: S) -> S {
    a.add_spec(b.sub_spec(a).mul_spec(t))
}

/// Linearly interpolates between two scalars: `a + (b - a) * t`.
pub fn lerp_scalar<S: Scalar>(a: S, b: S, t: S) -> (r: S)
    ensures
        r == lerp_spec(a, b, t),
{
    a.add(b.sub(a).mul(t))
}

/// Remaps `v` from the range `[a, b]` into the range `[x, y]`: the
/// interpolation of `x` and `y` at the parameter `(v - a) / (b - a)`.
pub fn map_range<S: Scalar>(a: S, b: S, v: S, x: S, y: S) -> (r: S)
    ensures
        r == lerp_spec(x, y, v.sub_spec(a).div_spec(b.sub_spec(a))),
{
    lerp_scalar(x, y, v.sub(a).div(b.sub(a)))
}

/// The inverse of the scalar interpolation: hands `f` the parameter
/// `(v - a) / (b - a)` at which `v` sits between `a` and `b`, and
/// returns whatever `f` made of it.
pub fn inverse_lerp_scalar<S: Scalar, F: Fn(S) -> S>(a: S, b: S, v: S, f: F) -> (r: S)
    requires
        call_requires(f, (v.sub_spec(a).div_spec(b.sub_spec(a)),)),
    ensures
        call_ensures(f, (v.sub_spec(a).div_spec(b.sub_spec(a)),), r),
{
    f(v.sub(a).div(b.sub(a)))
}

} // verus!
