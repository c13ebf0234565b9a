//! Colors over four colorspaces, with byte- or percentage-encoded
//! channels.
//!
//! A color is one of RGB, RGBA, HSV and HSVA; every variant can reach
//! every other through the conversion methods, with the RGB/HSV pair
//! carrying the real formulas and the alpha variants delegating to
//! their alpha-free counterparts plus an alpha pass-through. Each
//! channel is independently stored as a byte (0 to 255) or as a
//! clamped percentage; the hue, when present, is an angle in degree
//! scale, not wrapped.

use crate::angle::Angle;
use crate::interpolation::Interpolation;
use crate::percentage::Percentage;
use crate::scalar::{lerp_scalar, lerp_spec, Scalar};
use vstd::prelude::*;

verus! {

/// One channel: a byte or a clamped percentage.
#[derive(Debug, Clone, Copy)]
pub enum ColorComponent<S: Scalar> {
    Byte(u8),
    Percentage(Percentage<S>),
}

/// Which of the three RGB channels held the maximum, ties resolved
/// toward the later channel.
#[derive(Debug, Clone, Copy, PartialEq)]
pub enum RGBColorComponent {
    R,
    G,
    B,
}

#[derive(Debug, Clone, Copy)]
pub enum Color<S: Scalar> {
    RGB { r: ColorComponent<S>, g: ColorComponent<S>, b: ColorComponent<S> },
    RGBA { r: ColorComponent<S>, g: ColorComponent<S>, b: ColorComponent<S>, a: ColorComponent<S> },
    HSV { h: Angle<S>, s: ColorComponent<S>, v: ColorComponent<S> },
    HSVA { h: Angle<S>, s: ColorComponent<S>, v: ColorComponent<S>, a: ColorComponent<S> },
}

impl<S: Scalar> ColorComponent<S> {
    /// The fraction a byte stands for: the byte over 255, clamped.
    pub open spec fn byte_value_spec(b: u8) -> S {
        S::from_u8_spec(b).div_spec(S::from_u8_spec(255)).s_clamp_spec(
            S::zero_spec(),
            S::one_spec(),
        )
    }

    /// The channel as a fraction: a stored percentage's value, or the
    /// byte over 255 clamped.
    pub open spec fn to_percentage_value_spec(self) -> S {
        match self {
            ColorComponent::Byte(b) => Self::byte_value_spec(b),
            ColorComponent::Percentage(p) => p.take_spec(),
        }
    }

    /// The channel as a byte: the stored byte, or the percentage
    /// value scaled by 255 and converted.
    pub open spec fn to_byte_spec(self) -> u8 {
        match self {
            ColorComponent::Byte(b) => b,
            ColorComponent::Percentage(p) => p.take_spec().mul_spec(
                S::from_u8_spec(255),
            ).to_u8_spec(),
        }
    }

    /// Converts the channel into percentage form.
    pub fn to_percentage(self) -> (r: Percentage<S>)
        ensures
            r.take_spec() == self.to_percentage_value_spec(),
    {
        match self {
            ColorComponent::Byte(b) => Percentage::new(S::from_u8(b).div(S::from_u8(255))),
            ColorComponent::Percentage(p) => p,
        }
    }

    /// Converts the channel into byte form.
    pub fn to_byte(self) -> (r: u8)
        ensures
            r == self.to_byte_spec(),
    {
        match self {
            ColorComponent::Byte(b) => b,
            ColorComponent::Percentage(p) => p.take().mul(S::from_u8(255)).to_u8(),
        }
    }
}

impl<S: Scalar> Color<S> {
    /// The maximum of the three channel values, later channels
    /// winning ties.
    pub open spec fn cmax_spec(rv: S, gv: S, bv: S) -> S {
        let m = if gv.ge_spec(rv) {
            gv
        } else {
            rv
        };
        if bv.ge_spec(m) {
            bv
        } else {
            m
        }
    }

    /// Which channel the maximum came from, later channels winning
    /// ties.
    pub open spec fn max_channel_spec(rv: S, gv: S, bv: S) -> RGBColorComponent {
        let m = if gv.ge_spec(rv) {
            gv
        } else {
            rv
        };
        let c = if gv.ge_spec(rv) {
            RGBColorComponent::G
        } else {
            RGBColorComponent::R
        };
        if bv.ge_spec(m) {
            RGBColorComponent::B
        } else {
            c
        }
    }

    /// The minimum of the three channel values, later channels
    /// winning ties.
    pub open spec fn cmin_spec(rv: S, gv: S, bv: S) -> S {
        let m = if gv.le_spec(rv) {
            gv
        } else {
            rv
        };
        if bv.le_spec(m) {
            bv
        } else {
            m
        }
    }

    /// The remainder modulo six folded into `[0, 6)`: the plain
    /// remainder keeps the dividend's sign, so a negative one is
    /// shifted up by six.
    pub open spec fn mod_six_spec(x: S) -> S {
        let m = x.rem_spec(S::from_u8_spec(6));
        if m.ge_spec(S::zero_spec()) {
            m
        } else {
            m.add_spec(S::from_u8_spec(6))
        }
    }

    /// The remainder modulo six folded into `[0, 6)`.
    fn mod_six(x: S) -> (r: S)
        ensures
            r == Self::mod_six_spec(x),
    {
        let m = x.rem(S::from_u8(6));
        if m.ge_s(S::zero()) {
            m
        } else {
            m.add(S::from_u8(6))
        }
    }

    /// The hue in degrees: zero when the channel spread is exactly
    /// zero, else sixty times the sector offset picked by the maximal
    /// channel.
    pub open spec fn hue_spec(rv: S, gv: S, bv: S) -> S {
        let delta = Self::cmax_spec(rv, gv, bv).sub_spec(Self::cmin_spec(rv, gv, bv));
        if delta.eq_spec(S::zero_spec()) {
            S::zero_spec()
        } else {
            S::from_u8_spec(60).mul_spec(
                match Self::max_channel_spec(rv, gv, bv) {
                    RGBColorComponent::R => Self::mod_six_spec(gv.sub_spec(bv).div_spec(delta)),
                    RGBColorComponent::G => bv.sub_spec(rv).div_spec(delta).add_spec(
                        S::two_spec(),
                    ),
                    RGBColorComponent::B => rv.sub_spec(gv).div_spec(delta).add_spec(
                        S::four_spec(),
                    ),
                },
            )
        }
    }

    /// The saturation: zero when the maximum is exactly zero, else
    /// the spread over the maximum.
    pub open spec fn saturation_spec(rv: S, gv: S, bv: S) -> S {
        let cmax = Self::cmax_spec(rv, gv, bv);
        let delta = cmax.sub_spec(Self::cmin_spec(rv, gv, bv));
        if cmax.eq_spec(S::zero_spec()) {
            S::zero_spec()
        } else {
            delta.div_spec(cmax)
        }
    }

    /// The RGB triple of the standard HSV sector formula, before
    /// clamping: the sector index is the floor of the scaled hue,
    /// reduced modulo six.
    pub open spec fn hsv_triple_spec(hdeg: S, sv: S, vv: S) -> (S, S, S) {
        let h = hdeg.div_spec(S::from_u16_spec(360));
        let i = h.mul_spec(S::from_u8_spec(6)).s_floor_spec();
        let f = h.mul_spec(S::from_u8_spec(6)).sub_spec(i);
        let p = vv.mul_spec(S::one_spec().sub_spec(sv));
        let q = vv.mul_spec(S::one_spec().sub_spec(f.mul_spec(sv)));
        let t = vv.mul_spec(S::one_spec().sub_spec(S::one_spec().sub_spec(f).mul_spec(sv)));
        let sector = Self::mod_six_spec(i).to_u8_spec();
        if sector == 0 {
            (vv, t, p)
        } else if sector == 1 {
            (q, vv, p)
        } else if sector == 2 {
            (p, vv, t)
        } else if sector == 3 {
            (p, q, vv)
        } else if sector == 4 {
            (t, p, vv)
        } else if sector == 5 {
            (vv, p, q)
        } else {
            (S::zero_spec(), S::zero_spec(), S::zero_spec())
        }
    }

    /// Whether `out` is the HSV color computed from the three channel
    /// values: the hue in degrees, saturation and value stored as
    /// clamped percentages.
    pub open spec fn hsv_shape_spec(out: Color<S>, rv: S, gv: S, bv: S) -> bool {
        out matches Color::HSV { h, s, v } && h == Angle::<S>::Degrees(Self::hue_spec(rv, gv, bv))
            && (s matches ColorComponent::Percentage(sp) && sp.take_spec()
            == Self::saturation_spec(rv, gv, bv).s_clamp_spec(S::zero_spec(), S::one_spec())) && (
        v matches ColorComponent::Percentage(vp) && vp.take_spec() == Self::cmax_spec(
            rv,
            gv,
            bv,
        ).s_clamp_spec(S::zero_spec(), S::one_spec()))
    }

    /// Whether `out` is the RGB color of the sector formula at the
    /// given hue (in degrees), saturation and value: all three
    /// channels stored as clamped percentages.
    pub open spec fn rgb_shape_spec(out: Color<S>, hdeg: S, sv: S, vv: S) -> bool {
        let triple = Self::hsv_triple_spec(hdeg, sv, vv);
        out matches Color::RGB { r, g, b } && (r matches ColorComponent::Percentage(rp)
            && rp.take_spec() == triple.0.s_clamp_spec(S::zero_spec(), S::one_spec())) && (
        g matches ColorComponent::Percentage(gp) && gp.take_spec() == triple.1.s_clamp_spec(
            S::zero_spec(),
            S::one_spec(),
        )) && (b matches ColorComponent::Percentage(bp) && bp.take_spec()
            == triple.2.s_clamp_spec(S::zero_spec(), S::one_spec()))
    }

    /// Whether the channel is a percentage holding exactly a clamped
    /// one: the alpha attached when an alpha-free color gains the
    /// channel.
    pub open spec fn alpha_one_spec(c: ColorComponent<S>) -> bool {
        c matches ColorComponent::Percentage(p) && p.take_spec() == S::one_spec().s_clamp_spec(
            S::zero_spec(),
            S::one_spec(),
        )
    }

    /// The channel values (after percentage normalization) of this
    /// color read in RGB form.
    pub open spec fn rgb_values_spec(self) -> (S, S, S) {
        match self {
            Color::RGB { r, g, b } => (
                r.to_percentage_value_spec(),
                g.to_percentage_value_spec(),
                b.to_percentage_value_spec(),
            ),
            Color::RGBA { r, g, b, a } => (
                r.to_percentage_value_spec(),
                g.to_percentage_value_spec(),
                b.to_percentage_value_spec(),
            ),
            Color::HSV { h, s, v } => {
                let triple = Self::hsv_triple_spec(
                    h.take_degrees_spec(),
                    s.to_percentage_value_spec(),
                    v.to_percentage_value_spec(),
                );
                (
                    triple.0.s_clamp_spec(S::zero_spec(), S::one_spec()),
                    triple.1.s_clamp_spec(S::zero_spec(), S::one_spec()),
                    triple.2.s_clamp_spec(S::zero_spec(), S::one_spec()),
                )
            },
            Color::HSVA { h, s, v, a } => {
                let triple = Self::hsv_triple_spec(
                    h.take_degrees_spec(),
                    s.to_percentage_value_spec(),
                    v.to_percentage_value_spec(),
                );
                (
                    triple.0.s_clamp_spec(S::zero_spec(), S::one_spec()),
                    triple.1.s_clamp_spec(S::zero_spec(), S::one_spec()),
                    triple.2.s_clamp_spec(S::zero_spec(), S::one_spec()),
                )
            },
        }
    }

    /// The hue angle and the two channel values of this color read in
    /// HSV form.
    pub open spec fn hsv_values_spec(self) -> (Angle<S>, S, S) {
        match self {
            Color::HSV { h, s, v } => (
                h,
                s.to_percentage_value_spec(),
                v.to_percentage_value_spec(),
            ),
            Color::HSVA { h, s, v, a } => (
                h,
                s.to_percentage_value_spec(),
                v.to_percentage_value_spec(),
            ),
            Color::RGB { r, g, b } => {
                let rv = r.to_percentage_value_spec();
                let gv = g.to_percentage_value_spec();
                let bv = b.to_percentage_value_spec();
                (
                    Angle::Degrees(Self::hue_spec(rv, gv, bv)),
                    Self::saturation_spec(rv, gv, bv).s_clamp_spec(S::zero_spec(), S::one_spec()),
                    Self::cmax_spec(rv, gv, bv).s_clamp_spec(S::zero_spec(), S::one_spec()),
                )
            },
            Color::RGBA { r, g, b, a } => {
                let rv = r.to_percentage_value_spec();
                let gv = g.to_percentage_value_spec();
                let bv = b.to_percentage_value_spec();
                (
                    Angle::Degrees(Self::hue_spec(rv, gv, bv)),
                    Self::saturation_spec(rv, gv, bv).s_clamp_spec(S::zero_spec(), S::one_spec()),
                    Self::cmax_spec(rv, gv, bv).s_clamp_spec(S::zero_spec(), S::one_spec()),
                )
            },
        }
    }

    /// The bytes of this color read in RGB form.
    pub open spec fn rgb_bytes_spec(self) -> (u8, u8, u8) {
        match self {
            Color::RGB { r, g, b } => (r.to_byte_spec(), g.to_byte_spec(), b.to_byte_spec()),
            Color::RGBA { r, g, b, a } => (r.to_byte_spec(), g.to_byte_spec(), b.to_byte_spec()),
            Color::HSV { h, s, v } => {
                let values = self.rgb_values_spec();
                (
                    values.0.mul_spec(S::from_u8_spec(255)).to_u8_spec(),
                    values.1.mul_spec(S::from_u8_spec(255)).to_u8_spec(),
                    values.2.mul_spec(S::from_u8_spec(255)).to_u8_spec(),
                )
            },
            Color::HSVA { h, s, v, a } => {
                let values = self.rgb_values_spec();
                (
                    values.0.mul_spec(S::from_u8_spec(255)).to_u8_spec(),
                    values.1.mul_spec(S::from_u8_spec(255)).to_u8_spec(),
                    values.2.mul_spec(S::from_u8_spec(255)).to_u8_spec(),
                )
            },
        }
    }

    /// The channel values (after percentage normalization) of this
    /// color read in RGBA form: a missing alpha becomes a full one; a
    /// hue-tagged color goes through its byte form, as the conversion
    /// does.
    pub open spec fn rgba_values_spec(self) -> (S, S, S, S) {
        match self {
            Color::RGB { r, g, b } => (
                r.to_percentage_value_spec(),
                g.to_percentage_value_spec(),
                b.to_percentage_value_spec(),
                S::one_spec().s_clamp_spec(S::zero_spec(), S::one_spec()),
            ),
            Color::RGBA { r, g, b, a } => (
                r.to_percentage_value_spec(),
                g.to_percentage_value_spec(),
                b.to_percentage_value_spec(),
                a.to_percentage_value_spec(),
            ),
            Color::HSV { h, s, v } => {
                let bytes = self.rgb_bytes_spec();
                (
                    ColorComponent::<S>::byte_value_spec(bytes.0),
                    ColorComponent::<S>::byte_value_spec(bytes.1),
                    ColorComponent::<S>::byte_value_spec(bytes.2),
                    ColorComponent::<S>::byte_value_spec(255),
                )
            },
            Color::HSVA { h, s, v, a } => {
                let bytes = self.rgb_bytes_spec();
                (
                    ColorComponent::<S>::byte_value_spec(bytes.0),
                    ColorComponent::<S>::byte_value_spec(bytes.1),
                    ColorComponent::<S>::byte_value_spec(bytes.2),
                    a.to_percentage_value_spec(),
                )
            },
        }
    }

    /// The hue angle and the three channel values of this color read
    /// in HSVA form: a missing alpha becomes a full one.
    pub open spec fn hsva_values_spec(self) -> (Angle<S>, S, S, S) {
        let hsv = self.hsv_values_spec();
        match self {
            Color::HSVA { h, s, v, a } => (hsv.0, hsv.1, hsv.2, a.to_percentage_value_spec()),
            Color::RGBA { r, g, b, a } => (hsv.0, hsv.1, hsv.2, a.to_percentage_value_spec()),
            Color::HSV { h, s, v } => (
                hsv.0,
                hsv.1,
                hsv.2,
                S::one_spec().s_clamp_spec(S::zero_spec(), S::one_spec()),
            ),
            Color::RGB { r, g, b } => (
                hsv.0,
                hsv.1,
                hsv.2,
                S::one_spec().s_clamp_spec(S::zero_spec(), S::one_spec()),
            ),
        }
    }

    /// Converts RGB channels into the HSV color they encode.
    fn rgb_to_hsv_inner(r: ColorComponent<S>, g: ColorComponent<S>, b: ColorComponent<S>) -> (out:
        Self)
        ensures
            Self::hsv_shape_spec(
                out,
                r.to_percentage_value_spec(),
                g.to_percentage_value_spec(),
                b.to_percentage_value_spec(),
            ),
    {
        let rv = r.to_percentage().take();
        let gv = g.to_percentage().take();
        let bv = b.to_percentage().take();

        let mut cmax = rv;
        let mut max_c = RGBColorComponent::R;
        if gv.ge_s(cmax) {
            cmax = gv;
            max_c = RGBColorComponent::G;
        }
        if bv.ge_s(cmax) {
            cmax = bv;
            max_c = RGBColorComponent::B;
        }

        let mut cmin = rv;
        if gv.le_s(cmin) {
            cmin = gv;
        }
        if bv.le_s(cmin) {
            cmin = bv;
        }

        let delta = cmax.sub(cmin);

        let hue = if delta.eq_s(S::zero()) {
            S::zero()
        } else {
            S::from_u8(60).mul(
                match max_c {
                    RGBColorComponent::R => Self::mod_six(gv.sub(bv).div(delta)),
                    RGBColorComponent::G => bv.sub(rv).div(delta).add(S::two()),
                    RGBColorComponent::B => rv.sub(gv).div(delta).add(S::four()),
                },
            )
        };

        let saturation = if cmax.eq_s(S::zero()) {
            S::zero()
        } else {
            delta.div(cmax)
        };

        Color::HSV {
            h: Angle::Degrees(hue),
            s: Percentage::new(saturation).to_color_component(),
            v: Percentage::new(cmax).to_color_component(),
        }
    }

    /// Converts HSV channels into the RGB color they encode.
    fn hsv_to_rgb_inner(h: Angle<S>, s: ColorComponent<S>, v: ColorComponent<S>) -> (out: Self)
        ensures
            Self::rgb_shape_spec(
                out,
                h.take_degrees_spec(),
                s.to_percentage_value_spec(),
                v.to_percentage_value_spec(),
            ),
    {
        let hh = h.take_degrees().div(S::from_u16(360));
        let sv = s.to_percentage().take();
        let vv = v.to_percentage().take();

        let i = hh.mul(S::from_u8(6)).s_floor();
        let f = hh.mul(S::from_u8(6)).sub(i);
        let p = vv.mul(S::one().sub(sv));
        let q = vv.mul(S::one().sub(f.mul(sv)));
        let t = vv.mul(S::one().sub(S::one().sub(f).mul(sv)));

        let sector = Self::mod_six(i).to_u8();

        let triple = if sector == 0 {
            (vv, t, p)
        } else if sector == 1 {
            (q, vv, p)
        } else if sector == 2 {
            (p, vv, t)
        } else if sector == 3 {
            (p, q, vv)
        } else if sector == 4 {
            (t, p, vv)
        } else if sector == 5 {
            (vv, p, q)
        } else {
            (S::zero(), S::zero(), S::zero())
        };

        Color::RGB {
            r: Percentage::new(triple.0).to_color_component(),
            g: Percentage::new(triple.1).to_color_component(),
            b: Percentage::new(triple.2).to_color_component(),
        }
    }

    /// Converts into the HSV variant; an HSV color is returned
    /// unchanged, and an HSVA color only drops its alpha.
    pub fn to_hsv(self) -> (out: Self)
        ensures
            out is HSV,
            self is HSV ==> out == self,
            self matches Color::HSVA { h, s, v, a } ==> out == (Color::HSV { h, s, v }),
            self matches Color::RGB { r, g, b } ==> Self::hsv_shape_spec(
                out,
                r.to_percentage_value_spec(),
                g.to_percentage_value_spec(),
                b.to_percentage_value_spec(),
            ),
            self matches Color::RGBA { r, g, b, a } ==> Self::hsv_shape_spec(
                out,
                r.to_percentage_value_spec(),
                g.to_percentage_value_spec(),
                b.to_percentage_value_spec(),
            ),
    {
        match self {
            Color::HSV { .. } => self,
            Color::HSVA { h, s, v, .. } => Color::HSV { h, s, v },
            Color::RGB { r, g, b } => Self::rgb_to_hsv_inner(r, g, b),
            Color::RGBA { r, g, b, .. } => Self::rgb_to_hsv_inner(r, g, b),
        }
    }

    /// Converts into the HSVA variant; a color without an alpha gains
    /// a full one.
    pub fn to_hsva(self) -> (out: Self)
        ensures
            out is HSVA,
            self is HSVA ==> out == self,
            self matches Color::HSV { h, s, v } ==> (out matches Color::HSVA {
                h: h2,
                s: s2,
                v: v2,
                a: a2,
            } && h2 == h && s2 == s && v2 == v && Self::alpha_one_spec(a2)),
            self matches Color::RGB { r, g, b } ==> (out matches Color::HSVA {
                h: h2,
                s: s2,
                v: v2,
                a: a2,
            } && Self::hsv_shape_spec(
                Color::HSV { h: h2, s: s2, v: v2 },
                r.to_percentage_value_spec(),
                g.to_percentage_value_spec(),
                b.to_percentage_value_spec(),
            ) && Self::alpha_one_spec(a2)),
            self matches Color::RGBA { r, g, b, a } ==> (out matches Color::HSVA {
                h: h2,
                s: s2,
                v: v2,
                a: a2,
            } && Self::hsv_shape_spec(
                Color::HSV { h: h2, s: s2, v: v2 },
                r.to_percentage_value_spec(),
                g.to_percentage_value_spec(),
                b.to_percentage_value_spec(),
            ) && a2 == a),
    {
        match self {
            Color::HSVA { .. } => self,
            Color::HSV { h, s, v } => Color::HSVA {
                h,
                s,
                v,
                a: Percentage::new(S::one()).to_color_component(),
            },
            Color::RGB { r, g, b } => {
                let converted = Self::rgb_to_hsv_inner(r, g, b);
                match converted {
                    Color::HSV { h, s, v } => Color::HSVA {
                        h,
                        s,
                        v,
                        a: Percentage::new(S::one()).to_color_component(),
                    },
                    _ => {
                        proof {
                            assert(false);
                        }
                        converted
                    },
                }
            },
            Color::RGBA { r, g, b, a } => {
                let converted = Self::rgb_to_hsv_inner(r, g, b);
                match converted {
                    Color::HSV { h, s, v } => Color::HSVA { h, s, v, a },
                    _ => {
                        proof {
                            assert(false);
                        }
                        converted
                    },
                }
            },
        }
    }

    /// Converts into the RGB variant; an RGB color is returned
    /// unchanged, and an RGBA color only drops its alpha.
    pub fn to_rgb(self) -> (out: Self)
        ensures
            out is RGB,
            self is RGB ==> out == self,
            self matches Color::RGBA { r, g, b, a } ==> out == (Color::RGB { r, g, b }),
            self matches Color::HSV { h, s, v } ==> Self::rgb_shape_spec(
                out,
                h.take_degrees_spec(),
                s.to_percentage_value_spec(),
                v.to_percentage_value_spec(),
            ),
            self matches Color::HSVA { h, s, v, a } ==> Self::rgb_shape_spec(
                out,
                h.take_degrees_spec(),
                s.to_percentage_value_spec(),
                v.to_percentage_value_spec(),
            ),
    {
        match self {
            Color::RGB { .. } => self,
            Color::RGBA { r, g, b, .. } => Color::RGB { r, g, b },
            Color::HSV { h, s, v } => Self::hsv_to_rgb_inner(h, s, v),
            Color::HSVA { h, s, v, .. } => Self::hsv_to_rgb_inner(h, s, v),
        }
    }

    /// Converts into the RGBA variant; a color without an alpha gains
    /// a full one, and a hue-tagged color passes through its byte
    /// form.
    pub fn to_rgba(self) -> (out: Self)
        ensures
            out is RGBA,
            self matches Color::RGB { r, g, b } ==> (out matches Color::RGBA {
                r: r2,
                g: g2,
                b: b2,
                a: a2,
            } && r2 == r && g2 == g && b2 == b && Self::alpha_one_spec(a2)),
            self is RGBA ==> out == self,
            self matches Color::HSV { h, s, v } ==> out == (Color::RGBA {
                r: ColorComponent::<S>::Byte(self.rgb_bytes_spec().0),
                g: ColorComponent::<S>::Byte(self.rgb_bytes_spec().1),
                b: ColorComponent::<S>::Byte(self.rgb_bytes_spec().2),
                a: ColorComponent::<S>::Byte(255),
            }),
            self matches Color::HSVA { h, s, v, a } ==> out == (Color::RGBA {
                r: ColorComponent::<S>::Byte(self.rgb_bytes_spec().0),
                g: ColorComponent::<S>::Byte(self.rgb_bytes_spec().1),
                b: ColorComponent::<S>::Byte(self.rgb_bytes_spec().2),
                a,
            }),
    {
        match self {
            Color::RGB { r, g, b } => Color::RGBA {
                r,
                g,
                b,
                a: Percentage::new(S::one()).to_color_component(),
            },
            Color::RGBA { .. } => self,
            Color::HSV { .. } => {
                let bytes = self.rgb_take_bytes();
                Color::RGBA {
                    r: ColorComponent::Byte(bytes[0]),
                    g: ColorComponent::Byte(bytes[1]),
                    b: ColorComponent::Byte(bytes[2]),
                    a: ColorComponent::Byte(255),
                }
            },
            Color::HSVA { a, .. } => {
                let bytes = self.rgb_take_bytes();
                Color::RGBA {
                    r: ColorComponent::Byte(bytes[0]),
                    g: ColorComponent::Byte(bytes[1]),
                    b: ColorComponent::Byte(bytes[2]),
                    a,
                }
            },
        }
    }

    /// The three bytes of this color read in RGB form.
    pub fn rgb_take_bytes(&self) -> (out: [u8; 3])
        ensures
            out@[0] == self.rgb_bytes_spec().0,
            out@[1] == self.rgb_bytes_spec().1,
            out@[2] == self.rgb_bytes_spec().2,
    {
        let converted = self.to_rgb();
        match converted {
            Color::RGB { r, g, b } => [r.to_byte(), g.to_byte(), b.to_byte()],
            _ => {
                proof {
                    assert(false);
                }
                [0u8, 0u8, 0u8]
            },
        }
    }

    /// The four bytes of this color read in RGBA form.
    pub fn rgba_take_bytes(self) -> (out: [u8; 4])
        ensures
            out@[0] == self.rgb_bytes_spec().0,
            out@[1] == self.rgb_bytes_spec().1,
            out@[2] == self.rgb_bytes_spec().2,
            self matches Color::RGBA { r, g, b, a } ==> out@[3] == a.to_byte_spec(),
            self matches Color::HSVA { h, s, v, a } ==> out@[3] == a.to_byte_spec(),
            self is RGB ==> out@[3] == S::one_spec().s_clamp_spec(
                S::zero_spec(),
                S::one_spec(),
            ).mul_spec(S::from_u8_spec(255)).to_u8_spec(),
            self is HSV ==> out@[3] == 255,
    {
        let converted = self.to_rgba();
        match converted {
            Color::RGBA { r, g, b, a } => [r.to_byte(), g.to_byte(), b.to_byte(), a.to_byte()],
            _ => {
                proof {
                    assert(false);
                }
                [0u8, 0u8, 0u8, 0u8]
            },
        }
    }

    /// Whether this color is the RGB variant.
    pub fn is_rgb(&self) -> (out: bool)
        ensures
            out == (self is RGB),
    {
        match self {
            Color::RGB { .. } => true,
            _ => false,
        }
    }

    /// Whether this color is the RGBA variant.
    pub fn is_rgba(&self) -> (out: bool)
        ensures
            out == (self is RGBA),
    {
        match self {
            Color::RGBA { .. } => true,
            _ => false,
        }
    }

    /// Whether this color is the HSV variant.
    pub fn is_hsv(&self) -> (out: bool)
        ensures
            out == (self is HSV),
    {
        match self {
            Color::HSV { .. } => true,
            _ => false,
        }
    }

    /// Whether this color is the HSVA variant.
    pub fn is_hsva(&self) -> (out: bool)
        ensures
            out == (self is HSVA),
    {
        match self {
            Color::HSVA { .. } => true,
            _ => false,
        }
    }

    /// Whether this color lives in the RGB colorspace, with or
    /// without alpha.
    pub fn is_rgb_colorspace(&self) -> (out: bool)
        ensures
            out == (self is RGB || self is RGBA),
    {
        match self {
            Color::RGB { .. } | Color::RGBA { .. } => true,
            _ => false,
        }
    }

    /// Whether this color lives in the HSV colorspace, with or
    /// without alpha.
    pub fn is_hsv_colorspace(&self) -> (out: bool)
        ensures
            out == (self is HSV || self is HSVA),
    {
        match self {
            Color::HSV { .. } | Color::HSVA { .. } => true,
            _ => false,
        }
    }

    /// Whether this color carries an alpha channel.
    pub open spec fn has_alpha_spec(self) -> bool {
        self is RGBA || self is HSVA
    }

    /// Whether this color carries an alpha channel.
    pub fn has_alpha(&self) -> (out: bool)
        ensures
            out == self.has_alpha_spec(),
    {
        match self {
            Color::HSVA { .. } | Color::RGBA { .. } => true,
            _ => false,
        }
    }

    /// The alpha channel of the variants that carry one.
    pub open spec fn alpha_spec(self) -> Option<ColorComponent<S>> {
        match self {
            Color::RGBA { r, g, b, a } => Some(a),
            Color::HSVA { h, s, v, a } => Some(a),
            _ => None,
        }
    }

    /// The alpha channel, absent on the alpha-free variants.
    pub fn alpha(&self) -> (out: Option<ColorComponent<S>>)
        ensures
            out == self.alpha_spec(),
    {
        match self {
            Color::RGBA { a, .. } => Some(*a),
            Color::HSVA { a, .. } => Some(*a),
            _ => None,
        }
    }

    /// The red channel of the RGB-colorspace variants.
    pub open spec fn red_spec(self) -> Option<ColorComponent<S>> {
        match self {
            Color::RGB { r, g, b } => Some(r),
            Color::RGBA { r, g, b, a } => Some(r),
            _ => None,
        }
    }

    /// The red channel, absent outside the RGB colorspace.
    pub fn red(&self) -> (out: Option<ColorComponent<S>>)
        ensures
            out == self.red_spec(),
    {
        match self {
            Color::RGB { r, .. } => Some(*r),
            Color::RGBA { r, .. } => Some(*r),
            _ => None,
        }
    }

    /// The green channel of the RGB-colorspace variants.
    pub open spec fn green_spec(self) -> Option<ColorComponent<S>> {
        match self {
            Color::RGB { r, g, b } => Some(g),
            Color::RGBA { r, g, b, a } => Some(g),
            _ => None,
        }
    }

    /// The green channel, absent outside the RGB colorspace.
    pub fn green(&self) -> (out: Option<ColorComponent<S>>)
        ensures
            out == self.green_spec(),
    {
        match self {
            Color::RGB { g, .. } => Some(*g),
            Color::RGBA { g, .. } => Some(*g),
            _ => None,
        }
    }

    /// The blue channel of the RGB-colorspace variants.
    pub open spec fn blue_spec(self) -> Option<ColorComponent<S>> {
        match self {
            Color::RGB { r, g, b } => Some(b),
            Color::RGBA { r, g, b, a } => Some(b),
            _ => None,
        }
    }

    /// The blue channel, absent outside the RGB colorspace.
    pub fn blue(&self) -> (out: Option<ColorComponent<S>>)
        ensures
            out == self.blue_spec(),
    {
        match self {
            Color::RGB { b, .. } => Some(*b),
            Color::RGBA { b, .. } => Some(*b),
            _ => None,
        }
    }
}

impl<S: Scalar> Interpolation<S> for Color<S> {
    /// The colorspace-aware blend: the right operand is converted
    /// into the left operand's variant, every channel is blended
    /// linearly and re-clamped, the hue through the angle blend. A
    /// left alpha facing a right operand without one is blended with
    /// itself, so it stays at its own value.
    fn lerp(a: Self, b: Self, t: S) -> (out: Self)
        ensures
            a matches Color::RGB { r: ar, g: ag, b: ab } ==> (out matches Color::RGB {
                r: orc,
                g: ogc,
                b: obc,
            } && (orc matches ColorComponent::Percentage(orp) && orp.take_spec() == lerp_spec(
                ar.to_percentage_value_spec(),
                b.rgb_values_spec().0,
                t,
            ).s_clamp_spec(S::zero_spec(), S::one_spec())) && (ogc matches
            ColorComponent::Percentage(ogp) && ogp.take_spec() == lerp_spec(
                ag.to_percentage_value_spec(),
                b.rgb_values_spec().1,
                t,
            ).s_clamp_spec(S::zero_spec(), S::one_spec())) && (obc matches
            ColorComponent::Percentage(obp) && obp.take_spec() == lerp_spec(
                ab.to_percentage_value_spec(),
                b.rgb_values_spec().2,
                t,
            ).s_clamp_spec(S::zero_spec(), S::one_spec()))),
            a matches Color::RGBA { r: ar, g: ag, b: ab, a: aa } ==> (out matches Color::RGBA {
                r: orc,
                g: ogc,
                b: obc,
                a: oac,
            } && (orc matches ColorComponent::Percentage(orp) && orp.take_spec() == lerp_spec(
                ar.to_percentage_value_spec(),
                if b.has_alpha_spec() {
                    b.rgba_values_spec().0
                } else {
                    b.rgb_values_spec().0
                },
                t,
            ).s_clamp_spec(S::zero_spec(), S::one_spec())) && (ogc matches
            ColorComponent::Percentage(ogp) && ogp.take_spec() == lerp_spec(
                ag.to_percentage_value_spec(),
                if b.has_alpha_spec() {
                    b.rgba_values_spec().1
                } else {
                    b.rgb_values_spec().1
                },
                t,
            ).s_clamp_spec(S::zero_spec(), S::one_spec())) && (obc matches
            ColorComponent::Percentage(obp) && obp.take_spec() == lerp_spec(
                ab.to_percentage_value_spec(),
                if b.has_alpha_spec() {
                    b.rgba_values_spec().2
                } else {
                    b.rgb_values_spec().2
                },
                t,
            ).s_clamp_spec(S::zero_spec(), S::one_spec())) && (oac matches
            ColorComponent::Percentage(oap) && oap.take_spec() == lerp_spec(
                aa.to_percentage_value_spec(),
                if b.has_alpha_spec() {
                    b.rgba_values_spec().3
                } else {
                    aa.to_percentage_value_spec()
                },
                t,
            ).s_clamp_spec(S::zero_spec(), S::one_spec()))),
            a matches Color::HSV { h: ah, s: sa, v: va } ==> (out matches Color::HSV {
                h: oh,
                s: osc,
                v: ovc,
            } && oh == Angle::lerp_angle_spec(ah, b.hsv_values_spec().0, t) && (osc matches
            ColorComponent::Percentage(osp) && osp.take_spec() == lerp_spec(
                sa.to_percentage_value_spec(),
                b.hsv_values_spec().1,
                t,
            ).s_clamp_spec(S::zero_spec(), S::one_spec())) && (ovc matches
            ColorComponent::Percentage(ovp) && ovp.take_spec() == lerp_spec(
                va.to_percentage_value_spec(),
                b.hsv_values_spec().2,
                t,
            ).s_clamp_spec(S::zero_spec(), S::one_spec()))),
            a matches Color::HSVA { h: ah, s: sa, v: va, a: aa } ==> (out matches Color::HSVA {
                h: oh,
                s: osc,
                v: ovc,
                a: oac,
            } && oh == Angle::lerp_angle_spec(
                ah,
                if b.has_alpha_spec() {
                    b.hsva_values_spec().0
                } else {
                    b.hsv_values_spec().0
                },
                t,
            ) && (osc matches ColorComponent::Percentage(osp) && osp.take_spec() == lerp_spec(
                sa.to_percentage_value_spec(),
                if b.has_alpha_spec() {
                    b.hsva_values_spec().1
                } else {
                    b.hsv_values_spec().1
                },
                t,
            ).s_clamp_spec(S::zero_spec(), S::one_spec())) && (ovc matches
            ColorComponent::Percentage(ovp) && ovp.take_spec() == lerp_spec(
                va.to_percentage_value_spec(),
                if b.has_alpha_spec() {
                    b.hsva_values_spec().2
                } else {
                    b.hsv_values_spec().2
                },
                t,
            ).s_clamp_spec(S::zero_spec(), S::one_spec())) && (oac matches
            ColorComponent::Percentage(oap) && oap.take_spec() == lerp_spec(
                aa.to_percentage_value_spec(),
                if b.has_alpha_spec() {
                    b.hsva_values_spec().3
                } else {
                    aa.to_percentage_value_spec()
                },
                t,
            ).s_clamp_spec(S::zero_spec(), S::one_spec()))),
    {
        match a {
            Color::RGB { r: ar, g: ag, b: ab } => {
                let converted = b.to_rgb();
                match converted {
                    Color::RGB { r: br, g: bg, b: bb } => Color::RGB {
                        r: Percentage::new(
                            lerp_scalar(ar.to_percentage().take(), br.to_percentage().take(), t),
                        ).to_color_component(),
                        g: Percentage::new(
                            lerp_scalar(ag.to_percentage().take(), bg.to_percentage().take(), t),
                        ).to_color_component(),
                        b: Percentage::new(
                            lerp_scalar(ab.to_percentage().take(), bb.to_percentage().take(), t),
                        ).to_color_component(),
                    },
                    _ => {
                        proof {
                            assert(false);
                        }
                        converted
                    },
                }
            },
            Color::RGBA { r: ar, g: ag, b: ab, a: aa } => {
                let sides = if b.has_alpha() {
                    let converted = b.to_rgba();
                    match converted {
                        Color::RGBA { r: br, g: bg, b: bb, a: ba } => (br, bg, bb, ba),
                        _ => {
                            proof {
                                assert(false);
                            }
                            (aa, aa, aa, aa)
                        },
                    }
                } else {
                    let converted = b.to_rgb();
                    match converted {
                        Color::RGB { r: br, g: bg, b: bb } => (br, bg, bb, aa),
                        _ => {
                            proof {
                                assert(false);
                            }
                            (aa, aa, aa, aa)
                        },
                    }
                };
                Color::RGBA {
                    r: Percentage::new(
                        lerp_scalar(ar.to_percentage().take(), sides.0.to_percentage().take(), t),
                    ).to_color_component(),
                    g: Percentage::new(
                        lerp_scalar(ag.to_percentage().take(), sides.1.to_percentage().take(), t),
                    ).to_color_component(),
                    b: Percentage::new(
                        lerp_scalar(ab.to_percentage().take(), sides.2.to_percentage().take(), t),
                    ).to_color_component(),
                    a: Percentage::new(
                        lerp_scalar(aa.to_percentage().take(), sides.3.to_percentage().take(), t),
                    ).to_color_component(),
                }
            },
            Color::HSV { h: ah, s: sa, v: va } => {
                let converted = b.to_hsv();
                match converted {
                    Color::HSV { h: bh, s: bs, v: bv } => Color::HSV {
                        h: Interpolation::lerp(ah, bh, t),
                        s: Percentage::new(
                            lerp_scalar(sa.to_percentage().take(), bs.to_percentage().take(), t),
                        ).to_color_component(),
                        v: Percentage::new(
                            lerp_scalar(va.to_percentage().take(), bv.to_percentage().take(), t),
                        ).to_color_component(),
                    },
                    _ => {
                        proof {
                            assert(false);
                        }
                        converted
                    },
                }
            },
            Color::HSVA { h: ah, s: sa, v: va, a: aa } => {
                if b.has_alpha() {
                    let converted = b.to_hsva();
                    match converted {
                        Color::HSVA { h: bh, s: bs, v: bv, a: ba } => Color::HSVA {
                            h: Interpolation::lerp(ah, bh, t),
                            s: Percentage::new(
                                lerp_scalar(
                                    sa.to_percentage().take(),
                                    bs.to_percentage().take(),
                                    t,
                                ),
                            ).to_color_component(),
                            v: Percentage::new(
                                lerp_scalar(
                                    va.to_percentage().take(),
                                    bv.to_percentage().take(),
                                    t,
                                ),
                            ).to_color_component(),
                            a: Percentage::new(
                                lerp_scalar(
                                    aa.to_percentage().take(),
                                    ba.to_percentage().take(),
                                    t,
                                ),
                            ).to_color_component(),
                        },
                        _ => {
                            proof {
                                assert(false);
                            }
                            converted
                        },
                    }
                } else {
                    let converted = b.to_hsv();
                    match converted {
                        Color::HSV { h: bh, s: bs, v: bv } => Color::HSVA {
                            h: Interpolation::lerp(ah, bh, t),
                            s: Percentage::new(
                                lerp_scalar(
                                    sa.to_percentage().take(),
                                    bs.to_percentage().take(),
                                    t,
                                ),
                            ).to_color_component(),
                            v: Percentage::new(
                                lerp_scalar(
                                    va.to_percentage().take(),
                                    bv.to_percentage().take(),
                                    t,
                                ),
                            ).to_color_component(),
                            a: Percentage::new(
                                lerp_scalar(
                                    aa.to_percentage().take(),
                                    aa.to_percentage().take(),
                                    t,
                                ),
                            ).to_color_component(),
                        },
                        _ => {
                            proof {
                                assert(false);
                            }
                            converted
                        },
                    }
                }
            },
        }
    }
}

} // verus!
