//! A rotation magnitude tagged as radians or degrees.
//!
//! Conversion to a unit the value already has returns it unchanged, so
//! repeated conversion is idempotent. Arithmetic between two angles
//! converts the right operand into the left operand's unit and keeps
//! the left tag; arithmetic with a bare scalar reads the scalar as
//! already being in the angle's unit. Equality compares the two values
//! after normalizing both into the left operand's unit.

use crate::interpolation::Interpolation;
use crate::scalar::{lerp_scalar, lerp_spec, Scalar};
use vstd::prelude::*;

verus! {

#[derive(Debug, Clone, Copy)]
pub enum Angle<S: Scalar> {
    Radians(S),
    Degrees(S),
}

/// The right operand of angle arithmetic: another angle, converted
/// into the left operand's unit before combining, or a bare scalar,
/// combined as it stands.
#[derive(Debug, Clone, Copy)]
pub enum AngleOperatorValue<S: Scalar> {
    Angle(Angle<S>),
    Scalar(S),
}

impl<S: Scalar> Angle<S> {
    /// The stored value, whatever the unit tag.
    pub open spec fn take_spec(self) -> S {
        match self {
            Angle::Radians(r) => r,
            Angle::Degrees(d) => d,
        }
    }

    /// The angle in radian form: unchanged if already radians.
    pub open spec fn to_radians_spec(self) -> Angle<S> {
        match self {
            Angle::Radians(_) => self,
            Angle::Degrees(d) => Angle::Radians(d.rads_spec()),
        }
    }

    /// The angle in degree form: unchanged if already degrees.
    pub open spec fn to_degrees_spec(self) -> Angle<S> {
        match self {
            Angle::Radians(r) => Angle::Degrees(r.degs_spec()),
            Angle::Degrees(_) => self,
        }
    }

    /// The radian-normalized value.
    pub open spec fn take_radians_spec(self) -> S {
        self.to_radians_spec().take_spec()
    }

    /// The degree-normalized value.
    pub open spec fn take_degrees_spec(self) -> S {
        self.to_degrees_spec().take_spec()
    }

    /// The zero angle in radian form.
    pub fn rad_zero() -> (r: Self)
        ensures
            r == Angle::<S>::Radians(S::zero_spec()),
    {
        Angle::Radians(S::zero())
    }

    /// The zero angle in degree form.
    pub fn deg_zero() -> (r: Self)
        ensures
            r == Angle::<S>::Degrees(S::zero_spec()),
    {
        Angle::Degrees(S::zero())
    }

    /// The sine of the radian-normalized value.
    pub fn sin(self) -> (r: S)
        ensures
            r == self.take_radians_spec().sine_spec(),
    {
        self.take_radians().sine()
    }

    /// The cosine of the radian-normalized value.
    pub fn cos(self) -> (r: S)
        ensures
            r == self.take_radians_spec().cosine_spec(),
    {
        self.take_radians().cosine()
    }

    /// The tangent of the radian-normalized value.
    pub fn tan(self) -> (r: S)
        ensures
            r == self.take_radians_spec().tangent_spec(),
    {
        self.take_radians().tangent()
    }

    /// The sine and cosine of the radian-normalized value.
    pub fn sin_cos(self) -> (r: (S, S))
        ensures
            r.0 == self.take_radians_spec().sine_spec(),
            r.1 == self.take_radians_spec().cosine_spec(),
    {
        (self.sin(), self.cos())
    }

    /// The sine, cosine and tangent of the radian-normalized value.
    pub fn sin_cos_tan(self) -> (r: (S, S, S))
        ensures
            r.0 == self.take_radians_spec().sine_spec(),
            r.1 == self.take_radians_spec().cosine_spec(),
            r.2 == self.take_radians_spec().tangent_spec(),
    {
        (self.sin(), self.cos(), self.tan())
    }

    /// Converts into radian form; a radian angle is returned unchanged.
    pub fn to_radians(self) -> (r: Self)
        ensures
            r == self.to_radians_spec(),
            self is Radians ==> r == self,
    {
        match self {
            Angle::Radians(_) => self,
            Angle::Degrees(d) => Angle::Radians(d.rads()),
        }
    }

    /// Converts into degree form; a degree angle is returned unchanged.
    pub fn to_degrees(self) -> (r: Self)
        ensures
            r == self.to_degrees_spec(),
            self is Degrees ==> r == self,
    {
        match self {
            Angle::Radians(r) => Angle::Degrees(r.degs()),
            Angle::Degrees(_) => self,
        }
    }

    /// Whether the stored tag is degrees.
    pub fn is_degrees(self) -> (r: bool)
        ensures
            r == (self is Degrees),
    {
        match self {
            Angle::Degrees(_) => true,
            _ => false,
        }
    }

    /// Whether the stored tag is radians.
    pub fn is_radians(self) -> (r: bool)
        ensures
            r == (self is Radians),
    {
        match self {
            Angle::Radians(_) => true,
            _ => false,
        }
    }

    /// The stored value, whatever the unit tag.
    pub fn take(self) -> (r: S)
        ensures
            r == self.take_spec(),
    {
        match self {
            Angle::Radians(r) => r,
            Angle::Degrees(d) => d,
        }
    }

    /// The radian-normalized value.
    pub fn take_radians(self) -> (r: S)
        ensures
            r == self.take_radians_spec(),
    {
        self.to_radians().take()
    }

    /// The degree-normalized value.
    pub fn take_degrees(self) -> (r: S)
        ensures
            r == self.take_degrees_spec(),
    {
        self.to_degrees().take()
    }

    /// The sum, in the left operand's unit.
    pub open spec fn add_spec(self, rhs: AngleOperatorValue<S>) -> Angle<S> {
        match rhs {
            AngleOperatorValue::Angle(angle) => match self {
                Angle::Radians(r) => Angle::Radians(r.add_spec(angle.take_radians_spec())),
                Angle::Degrees(d) => Angle::Degrees(d.add_spec(angle.take_degrees_spec())),
            },
            AngleOperatorValue::Scalar(s) => match self {
                Angle::Radians(r) => Angle::Radians(r.add_spec(s)),
                Angle::Degrees(d) => Angle::Degrees(d.add_spec(s)),
            },
        }
    }

    /// The difference, in the left operand's unit.
    pub open spec fn sub_spec(self, rhs: AngleOperatorValue<S>) -> Angle<S> {
        match rhs {
            AngleOperatorValue::Angle(angle) => match self {
                Angle::Radians(r) => Angle::Radians(r.sub_spec(angle.take_radians_spec())),
                Angle::Degrees(d) => Angle::Degrees(d.sub_spec(angle.take_degrees_spec())),
            },
            AngleOperatorValue::Scalar(s) => match self {
                Angle::Radians(r) => Angle::Radians(r.sub_spec(s)),
                Angle::Degrees(d) => Angle::Degrees(d.sub_spec(s)),
            },
        }
    }

    /// The product, in the left operand's unit.
    pub open spec fn mul_spec(self, rhs: AngleOperatorValue<S>) -> Angle<S> {
        match rhs {
            AngleOperatorValue::Angle(angle) => match self {
                Angle::Radians(r) => Angle::Radians(r.mul_spec(angle.take_radians_spec())),
                Angle::Degrees(d) => Angle::Degrees(d.mul_spec(angle.take_degrees_spec())),
            },
            AngleOperatorValue::Scalar(s) => match self {
                Angle::Radians(r) => Angle::Radians(r.mul_spec(s)),
                Angle::Degrees(d) => Angle::Degrees(d.mul_spec(s)),
            },
        }
    }

    /// The quotient, in the left operand's unit.
    pub open spec fn div_spec(self, rhs: AngleOperatorValue<S>) -> Angle<S> {
        match rhs {
            AngleOperatorValue::Angle(angle) => match self {
                Angle::Radians(r) => Angle::Radians(r.div_spec(angle.take_radians_spec())),
                Angle::Degrees(d) => Angle::Degrees(d.div_spec(angle.take_degrees_spec())),
            },
            AngleOperatorValue::Scalar(s) => match self {
                Angle::Radians(r) => Angle::Radians(r.div_spec(s)),
                Angle::Degrees(d) => Angle::Degrees(d.div_spec(s)),
            },
        }
    }

    /// Adds another angle (converted into this angle's unit) or a bare
    /// scalar (read as already being in this angle's unit).
    pub fn add(self, rhs: AngleOperatorValue<S>) -> (r: Self)
        ensures
            r == self.add_spec(rhs),
    {
        match rhs {
            AngleOperatorValue::Angle(angle) => match self {
                Angle::Radians(r) => Angle::Radians(r.add(angle.take_radians())),
                Angle::Degrees(d) => Angle::Degrees(d.add(angle.take_degrees())),
            },
            AngleOperatorValue::Scalar(s) => match self {
                Angle::Radians(r) => Angle::Radians(r.add(s)),
                Angle::Degrees(d) => Angle::Degrees(d.add(s)),
            },
        }
    }

    /// Subtracts, with the same unit rule as `add`.
    pub fn sub(self, rhs: AngleOperatorValue<S>) -> (r: Self)
        ensures
            r == self.sub_spec(rhs),
    {
        match rhs {
            AngleOperatorValue::Angle(angle) => match self {
                Angle::Radians(r) => Angle::Radians(r.sub(angle.take_radians())),
                Angle::Degrees(d) => Angle::Degrees(d.sub(angle.take_degrees())),
            },
            AngleOperatorValue::Scalar(s) => match self {
                Angle::Radians(r) => Angle::Radians(r.sub(s)),
                Angle::Degrees(d) => Angle::Degrees(d.sub(s)),
            },
        }
    }

    /// Multiplies, with the same unit rule as `add`.
    pub fn mul(self, rhs: AngleOperatorValue<S>) -> (r: Self)
        ensures
            r == self.mul_spec(rhs),
    {
        match rhs {
            AngleOperatorValue::Angle(angle) => match self {
                Angle::Radians(r) => Angle::Radians(r.mul(angle.take_radians())),
                Angle::Degrees(d) => Angle::Degrees(d.mul(angle.take_degrees())),
            },
            AngleOperatorValue::Scalar(s) => match self {
                Angle::Radians(r) => Angle::Radians(r.mul(s)),
                Angle::Degrees(d) => Angle::Degrees(d.mul(s)),
            },
        }
    }

    /// Divides, with the same unit rule as `add`.
    pub fn div(self, rhs: AngleOperatorValue<S>) -> (r: Self)
        ensures
            r == self.div_spec(rhs),
    {
        match rhs {
            AngleOperatorValue::Angle(angle) => match self {
                Angle::Radians(r) => Angle::Radians(r.div(angle.take_radians())),
                Angle::Degrees(d) => Angle::Degrees(d.div(angle.take_degrees())),
            },
            AngleOperatorValue::Scalar(s) => match self {
                Angle::Radians(r) => Angle::Radians(r.div(s)),
                Angle::Degrees(d) => Angle::Degrees(d.div(s)),
            },
        }
    }

    /// The tag-preserving linear blend: the right operand is converted
    /// into the left operand's unit and the values blended linearly.
    pub open spec fn lerp_angle_spec(a: Self, b: Self, t: S) -> Angle<S> {
        match a {
            Angle::Radians(ar) => Angle::Radians(lerp_spec(ar, b.take_radians_spec(), t)),
            Angle::Degrees(ad) => Angle::Degrees(lerp_spec(ad, b.take_degrees_spec(), t)),
        }
    }

    /// Whether the two angles are equal once both are read in `self`'s
    /// unit.
    pub open spec fn angle_eq_spec(self, other: Angle<S>) -> bool {
        match self {
            Angle::Radians(r) => r.eq_spec(other.to_radians_spec().take_spec()),
            Angle::Degrees(d) => d.eq_spec(other.to_degrees_spec().take_spec()),
        }
    }
}

impl<S: Scalar> Interpolation<S> for Angle<S> {
    fn lerp(a: Self, b: Self, t: S) -> (r: Self)
        ensures
            r == Angle::lerp_angle_spec(a, b, t),
    {
        match a {
            Angle::Radians(ar) => Angle::Radians(lerp_scalar(ar, b.take_radians(), t)),
            Angle::Degrees(ad) => Angle::Degrees(lerp_scalar(ad, b.take_degrees(), t)),
        }
    }
}

impl<S: Scalar> PartialEq for Angle<S> {
    fn eq(&self, other: &Self) -> (r: bool) {
        match *self {
            Angle::Radians(r) => r.eq_s((*other).to_radians().take()),
            Angle::Degrees(d) => d.eq_s((*other).to_degrees().take()),
        }
    }
}

impl<S: Scalar> vstd::std_specs::cmp::PartialEqSpecImpl for Angle<S> {
    open spec fn obeys_eq_spec() -> bool {
        true
    }

    open spec fn eq_spec(&self, other: &Self) -> bool {
        self.angle_eq_spec(*other)
    }
}

/// Law: converting into radian form is idempotent — a second
/// conversion returns the first result unchanged.
pub proof fn lemma_to_radians_idempotent<S: Scalar>(a: Angle<S>)
    ensures
        a.to_radians_spec().to_radians_spec() == a.to_radians_spec(),
{
}

/// Law: converting into degree form is idempotent — a second
/// conversion returns the first result unchanged.
pub proof fn lemma_to_degrees_idempotent<S: Scalar>(a: Angle<S>)
    ensures
        a.to_degrees_spec().to_degrees_spec() == a.to_degrees_spec(),
{
}

} // verus!
