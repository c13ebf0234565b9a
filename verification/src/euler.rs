//! Yaw, pitch and roll angles packaged with a display-style tag.
//!
//! The three angles convert together: `to_radians`, `to_degrees`,
//! `radify` and `degify` apply one conversion to all of them at once.
//! The style tag only selects how the triple is rendered; it never
//! affects a computation.

use crate::angle::Angle;
use crate::quaternion::Quaternion;
use crate::scalar::Scalar;
use vstd::prelude::*;

verus! {

/// How an Euler triple is rendered: as a plain numeric triple or with
/// one of the two Greek-letter conventions.
#[derive(Debug, Clone, Copy, PartialEq, Eq, Structural)]
pub enum DebugFlag {
    Plain,
    GreekA,
    GreekB,
}

#[derive(Debug, Clone, Copy, PartialEq)]
pub struct Euler<S: Scalar> {
    pub yaw: Angle<S>,
    pub pitch: Angle<S>,
    pub roll: Angle<S>,
    pub debug_flag: DebugFlag,
}

impl<S: Scalar> Euler<S> {
    /// The triple with every angle in radian form, tag unchanged.
    pub open spec fn to_radians_spec(self) -> Euler<S> {
        Euler {
            yaw: self.yaw.to_radians_spec(),
            pitch: self.pitch.to_radians_spec(),
            roll: self.roll.to_radians_spec(),
            debug_flag: self.debug_flag,
        }
    }

    /// The triple with every angle in degree form, tag unchanged.
    pub open spec fn to_degrees_spec(self) -> Euler<S> {
        Euler {
            yaw: self.yaw.to_degrees_spec(),
            pitch: self.pitch.to_degrees_spec(),
            roll: self.roll.to_degrees_spec(),
            debug_flag: self.debug_flag,
        }
    }

    /// The three stored values in `(roll, pitch, yaw)` order.
    pub open spec fn take_spec(self) -> (S, S, S) {
        (self.roll.take_spec(), self.pitch.take_spec(), self.yaw.take_spec())
    }

    /// Returns the 3 components in (roll, pitch, yaw) form.
    pub fn take(self) -> (r: (S, S, S))
        ensures
            r == self.take_spec(),
    {
        (self.roll.take(), self.pitch.take(), self.yaw.take())
    }

    /// The components in `(roll, pitch, yaw)` form, radian-normalized.
    pub fn take_radians(self) -> (r: (S, S, S))
        ensures
            r == self.to_radians_spec().take_spec(),
    {
        self.to_radians().take()
    }

    /// The components in `(roll, pitch, yaw)` form, degree-normalized.
    pub fn take_degrees(self) -> (r: (S, S, S))
        ensures
            r == self.to_degrees_spec().take_spec(),
    {
        self.to_degrees().take()
    }

    /// Converts all three angles into radian form at once.
    pub fn to_radians(self) -> (r: Self)
        ensures
            r == self.to_radians_spec(),
    {
        let mut out = self;
        out.roll = out.roll.to_radians();
        out.yaw = out.yaw.to_radians();
        out.pitch = out.pitch.to_radians();
        out
    }

    /// Converts all three angles into degree form at once.
    pub fn to_degrees(self) -> (r: Self)
        ensures
            r == self.to_degrees_spec(),
    {
        let mut out = self;
        out.roll = out.roll.to_degrees();
        out.yaw = out.yaw.to_degrees();
        out.pitch = out.pitch.to_degrees();
        out
    }

    /// Converts this triple into radian form in place.
    pub fn radify(&mut self)
        ensures
            *final(self) == old(self).to_radians_spec(),
    {
        *self = self.to_radians();
    }

    /// Converts this triple into degree form in place.
    pub fn degify(&mut self)
        ensures
            *final(self) == old(self).to_degrees_spec(),
    {
        *self = self.to_degrees();
    }

    /// The quaternion built from this triple by the half-angle form.
    pub fn to_quat(self) -> (r: Quaternion<S>)
        ensures
            r == Quaternion::from_euler_spec(self),
    {
        Quaternion::from_euler(self)
    }
}

/// Law: converting a whole triple into radian form is idempotent — a
/// second conversion returns the first result unchanged.
pub proof fn lemma_euler_to_radians_idempotent<S: Scalar>(e: Euler<S>)
    ensures
        e.to_radians_spec().to_radians_spec() == e.to_radians_spec(),
{
}

/// Law: converting a whole triple into degree form is idempotent — a
/// second conversion returns the first result unchanged.
pub proof fn lemma_euler_to_degrees_idempotent<S: Scalar>(e: Euler<S>)
    ensures
        e.to_degrees_spec().to_degrees_spec() == e.to_degrees_spec(),
{
}

} // verus!
