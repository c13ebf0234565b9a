//! A scalar wrapper clamped into `[0, 1]` at construction.
//!
//! Construction is the only clamping point: the arithmetic methods
//! combine the wrapped scalars without re-validating the bound, by
//! design, so only `new` (and the constructors built on it) enforce it.

use crate::scalar::Scalar;
use vstd::prelude::*;

verus! {

#[derive(Debug, Clone, Copy)]
pub struct Percentage<S: Scalar>(S);

impl<S: Scalar> Percentage<S> {
    /// The wrapped scalar.
    pub closed spec fn take_spec(self) -> S {
        self.0
    }

    /// Wraps `s` clamped into `[0, 1]`.
    pub fn new(s: S) -> (r: Self)
        ensures
            r.take_spec() == s.s_clamp_spec(S::zero_spec(), S::one_spec()),
    {
        Percentage(s.s_clamp(S::zero(), S::one()))
    }

    /// Wraps the ratio `a / b`, clamped into `[0, 1]`. A zero `b`
    /// yields a non-finite ratio, which the clamp maps by the scalar's
    /// own comparison semantics.
    pub fn from(a: S, b: S) -> (r: Self)
        ensures
            r.take_spec() == a.div_spec(b).s_clamp_spec(S::zero_spec(), S::one_spec()),
    {
        Self::new(a.div(b))
    }

    /// Wraps `u / 100`, with `u` capped at 100 first.
    pub fn from_100(u: u8) -> (r: Self)
        ensures
            r.take_spec() == S::from_u8_spec(if u < 100 { u } else { 100u8 }).div_spec(
                S::from_u8_spec(100),
            ).s_clamp_spec(S::zero_spec(), S::one_spec()),
    {
        let capped: u8 = if u < 100 {
            u
        } else {
            100
        };
        Self::new(S::from_u8(capped).div(S::from_u8(100)))
    }

    /// Unwraps the scalar.
    pub fn take(self) -> (r: S)
        ensures
            r == self.take_spec(),
    {
        self.0
    }

    /// Wraps this percentage as a color channel.
    pub fn to_color_component(self) -> (r: crate::color::ColorComponent<S>)
        ensures
            r == crate::color::ColorComponent::Percentage(self),
    {
        crate::color::ColorComponent::Percentage(self)
    }

    /// The sum of the wrapped scalars, not re-clamped.
    pub fn add(self, rhs: Self) -> (r: Self)
        ensures
            r.take_spec() == self.take_spec().add_spec(rhs.take_spec()),
    {
        Percentage(self.0.add(rhs.0))
    }

    /// The difference of the wrapped scalars, not re-clamped.
    pub fn sub(self, rhs: Self) -> (r: Self)
        ensures
            r.take_spec() == self.take_spec().sub_spec(rhs.take_spec()),
    {
        Percentage(self.0.sub(rhs.0))
    }

    /// The product of the wrapped scalars, not re-clamped.
    pub fn mul(self, rhs: Self) -> (r: Self)
        ensures
            r.take_spec() == self.take_spec().mul_spec(rhs.take_spec()),
    {
        Percentage(self.0.mul(rhs.0))
    }

    /// The quotient of the wrapped scalars, not re-clamped.
    pub fn div(self, rhs: Self) -> (r: Self)
        ensures
            r.take_spec() == self.take_spec().div_spec(rhs.take_spec()),
    {
        Percentage(self.0.div(rhs.0))
    }

    /// The wrapped scalar plus a bare scalar, not re-clamped.
    pub fn add_scalar(self, rhs: S) -> (r: Self)
        ensures
            r.take_spec() == self.take_spec().add_spec(rhs),
    {
        Percentage(self.0.add(rhs))
    }

    /// The wrapped scalar minus a bare scalar, not re-clamped.
    pub fn sub_scalar(self, rhs: S) -> (r: Self)
        ensures
            r.take_spec() == self.take_spec().sub_spec(rhs),
    {
        Percentage(self.0.sub(rhs))
    }

    /// The wrapped scalar times a bare scalar, not re-clamped.
    pub fn mul_scalar(self, rhs: S) -> (r: Self)
        ensures
            r.take_spec() == self.take_spec().mul_spec(rhs),
    {
        Percentage(self.0.mul(rhs))
    }

    /// The wrapped scalar over a bare scalar, not re-clamped.
    pub fn div_scalar(self, rhs: S) -> (r: Self)
        ensures
            r.take_spec() == self.take_spec().div_spec(rhs),
    {
        Percentage(self.0.div(rhs))
    }
}

} // verus!
