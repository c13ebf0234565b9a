//! The kernel exercised at 64-bit precision through a scalar newtype.

use gmath::angle::{Angle, AngleOperatorValue};
use gmath::color::{Color, ColorComponent};
use gmath::euler::{DebugFlag, Euler};
use gmath::interpolation::Interpolation;
use gmath::matrix::{Matrix2x2, Matrix3x3, Matrix4x4, RotationError, RotationOrder, SquareMatrix};
use gmath::percentage::Percentage;
use gmath::prelude::{vec2, vec3, vec4};
use gmath::quaternion::Quaternion;
use gmath::scalar::{inverse_lerp_scalar, lerp_scalar, map_range, Scalar};
use gmath::vector::{Vec2, Vec3, Vec4};

#[derive(Debug, Clone, Copy, PartialEq, PartialOrd)]
struct S64(f64);

impl Interpolation<S64> for S64 {
    fn lerp(a: Self, b: Self, t: S64) -> Self {
        S64(a.0 + (b.0 - a.0) * t.0)
    }
}

impl Scalar for S64 {
    // The specification items compile to trait items a runtime
    // implementation must supply; they are never called at run time.
    fn add_spec(self, _: Self) -> Self {
        panic!("specification-only item")
    }
    fn sub_spec(self, _: Self) -> Self {
        panic!("specification-only item")
    }
    fn mul_spec(self, _: Self) -> Self {
        panic!("specification-only item")
    }
    fn div_spec(self, _: Self) -> Self {
        panic!("specification-only item")
    }
    fn rem_spec(self, _: Self) -> Self {
        panic!("specification-only item")
    }
    fn neg_spec(self) -> Self {
        panic!("specification-only item")
    }
    fn eq_spec(self, _: Self) -> bool {
        panic!("specification-only item")
    }
    fn le_spec(self, _: Self) -> bool {
        panic!("specification-only item")
    }
    fn ge_spec(self, _: Self) -> bool {
        panic!("specification-only item")
    }
    fn sine_spec(self) -> Self {
        panic!("specification-only item")
    }
    fn cosine_spec(self) -> Self {
        panic!("specification-only item")
    }
    fn tangent_spec(self) -> Self {
        panic!("specification-only item")
    }
    fn inverse_sine_spec(self) -> Self {
        panic!("specification-only item")
    }
    fn inverse_cosine_spec(self) -> Self {
        panic!("specification-only item")
    }
    fn power_i_spec(self, _: i32) -> Self {
        panic!("specification-only item")
    }
    fn power_f_spec(self, _: Self) -> Self {
        panic!("specification-only item")
    }
    fn square_root2_spec(self) -> Self {
        panic!("specification-only item")
    }
    fn rads_spec(self) -> Self {
        panic!("specification-only item")
    }
    fn degs_spec(self) -> Self {
        panic!("specification-only item")
    }
    fn s_clamp_spec(self, _: Self, _: Self) -> Self {
        panic!("specification-only item")
    }
    fn s_floor_spec(self) -> Self {
        panic!("specification-only item")
    }
    fn s_ceil_spec(self) -> Self {
        panic!("specification-only item")
    }
    fn s_abs_spec(self) -> Self {
        panic!("specification-only item")
    }
    fn from_u8_spec(_: u8) -> Self {
        panic!("specification-only item")
    }
    fn from_u16_spec(_: u16) -> Self {
        panic!("specification-only item")
    }
    fn to_u8_spec(self) -> u8 {
        panic!("specification-only item")
    }
    fn zero_spec() -> Self {
        panic!("specification-only item")
    }
    fn one_spec() -> Self {
        panic!("specification-only item")
    }
    fn two_spec() -> Self {
        panic!("specification-only item")
    }
    fn three_spec() -> Self {
        panic!("specification-only item")
    }
    fn four_spec() -> Self {
        panic!("specification-only item")
    }
    fn five_spec() -> Self {
        panic!("specification-only item")
    }
    fn neg_one_spec() -> Self {
        panic!("specification-only item")
    }
    fn pi_spec() -> Self {
        panic!("specification-only item")
    }
    fn render_spec(self) -> String {
        panic!("specification-only item")
    }

    fn add(self, rhs: Self) -> Self {
        S64(self.0 + rhs.0)
    }
    fn sub(self, rhs: Self) -> Self {
        S64(self.0 - rhs.0)
    }
    fn mul(self, rhs: Self) -> Self {
        S64(self.0 * rhs.0)
    }
    fn div(self, rhs: Self) -> Self {
        S64(self.0 / rhs.0)
    }
    fn rem(self, rhs: Self) -> Self {
        S64(self.0 % rhs.0)
    }
    fn neg(self) -> Self {
        S64(-self.0)
    }
    fn eq_s(self, rhs: Self) -> bool {
        self.0 == rhs.0
    }
    fn le_s(self, rhs: Self) -> bool {
        self.0 <= rhs.0
    }
    fn ge_s(self, rhs: Self) -> bool {
        self.0 >= rhs.0
    }
    fn sine(self) -> Self {
        S64(self.0.sin())
    }
    fn cosine(self) -> Self {
        S64(self.0.cos())
    }
    fn tangent(self) -> Self {
        S64(self.0.tan())
    }
    fn inverse_sine(self) -> Self {
        S64(self.0.asin())
    }
    fn inverse_cosine(self) -> Self {
        S64(self.0.acos())
    }
    fn power_i(self, i: i32) -> Self {
        S64(self.0.powi(i))
    }
    fn power_f(self, f: Self) -> Self {
        S64(self.0.powf(f.0))
    }
    fn square_root2(self) -> Self {
        S64(self.0.sqrt())
    }
    fn rads(self) -> Self {
        S64(self.0.to_radians())
    }
    fn degs(self) -> Self {
        S64(self.0.to_degrees())
    }
    fn s_clamp(self, min: Self, max: Self) -> Self {
        S64(self.0.max(min.0).min(max.0))
    }
    fn s_floor(self) -> Self {
        S64(self.0.floor())
    }
    fn s_ceil(self) -> Self {
        S64(self.0.ceil())
    }
    fn s_abs(self) -> Self {
        S64(self.0.abs())
    }
    fn from_u8(value: u8) -> Self {
        S64(value as f64)
    }
    fn from_u16(value: u16) -> Self {
        S64(value as f64)
    }
    fn to_u8(self) -> u8 {
        self.0 as u8
    }
    fn zero() -> Self {
        S64(0.0)
    }
    fn one() -> Self {
        S64(1.0)
    }
    fn two() -> Self {
        S64(2.0)
    }
    fn three() -> Self {
        S64(3.0)
    }
    fn four() -> Self {
        S64(4.0)
    }
    fn five() -> Self {
        S64(5.0)
    }
    fn neg_one() -> Self {
        S64(-1.0)
    }
    fn pi() -> Self {
        S64(std::f64::consts::PI)
    }
    fn name_tag() -> String {
        "d".to_string()
    }
    fn render(self) -> String {
        format!("{}", self.0)
    }
}

fn close(a: S64, b: f64) -> bool {
    (a.0 - b).abs() < 1e-9
}

fn pct(v: f64) -> ColorComponent<S64> {
    Percentage::new(S64(v)).to_color_component()
}

fn byte_rgb(r: u8, g: u8, b: u8) -> Color<S64> {
    Color::RGB {
        r: ColorComponent::Byte(r),
        g: ColorComponent::Byte(g),
        b: ColorComponent::Byte(b),
    }
}

#[test]
fn angle_round_trip() {
    for s in [-720.0, -180.0, -1.5, 0.0, 0.25, 1.0, 90.0, 180.0, 359.0, 720.5, 12345.678] {
        let back = Angle::Degrees(S64(s)).to_radians().to_degrees();
        assert!(back.is_degrees());
        assert!(close(back.take(), s), "round trip drifted at {s}");
    }
}

#[test]
fn angle_equality_across_representation() {
    assert!(Angle::Degrees(S64(180.0)) == Angle::Radians(S64(std::f64::consts::PI)));
    assert!(Angle::Radians(S64(std::f64::consts::PI)) == Angle::Degrees(S64(180.0)));
    assert!(Angle::Degrees(S64(90.0)) != Angle::Degrees(S64(91.0)));
}

#[test]
fn angle_conversion_idempotent_and_tags() {
    let a = Angle::Degrees(S64(33.0));
    let r = a.to_radians();
    assert!(r.is_radians());
    assert_eq!(r.to_radians().take().0, r.take().0);
    assert!(a.to_degrees().is_degrees());
    assert_eq!(a.to_degrees().take().0, 33.0);
    assert_eq!(Angle::<S64>::rad_zero().take().0, 0.0);
    assert_eq!(Angle::<S64>::deg_zero().take().0, 0.0);
}

#[test]
fn angle_trigonometry_is_radian_normalized() {
    let a = Angle::Degrees(S64(90.0));
    assert!(close(a.sin(), 1.0));
    assert!(close(a.cos(), 0.0));
    let (s, c) = a.sin_cos();
    assert!(close(s, 1.0));
    assert!(close(c, 0.0));
    let (s2, c2, t2) = Angle::Radians(S64(0.0)).sin_cos_tan();
    assert_eq!(s2.0, 0.0);
    assert_eq!(c2.0, 1.0);
    assert_eq!(t2.0, 0.0);
}

#[test]
fn angle_arithmetic_keeps_left_unit() {
    let sum = Angle::Degrees(S64(90.0)).add(AngleOperatorValue::Angle(Angle::Radians(S64(
        std::f64::consts::FRAC_PI_2,
    ))));
    assert!(sum.is_degrees());
    assert!(close(sum.take(), 180.0));

    let shifted = Angle::Degrees(S64(90.0)).add(AngleOperatorValue::Scalar(S64(10.0)));
    assert!(shifted.is_degrees());
    assert!(close(shifted.take(), 100.0));

    let diff = Angle::Radians(S64(1.0)).sub(AngleOperatorValue::Scalar(S64(0.25)));
    assert!(diff.is_radians());
    assert!(close(diff.take(), 0.75));

    let scaled = Angle::Degrees(S64(10.0)).mul(AngleOperatorValue::Scalar(S64(3.0)));
    assert!(close(scaled.take(), 30.0));

    let halved = Angle::Degrees(S64(10.0)).div(AngleOperatorValue::Scalar(S64(2.0)));
    assert!(close(halved.take(), 5.0));
}

#[test]
fn angle_lerp_blends_in_left_unit() {
    let mid = Angle::lerp(Angle::Degrees(S64(0.0)), Angle::Degrees(S64(90.0)), S64(0.5));
    assert!(mid.is_degrees());
    assert!(close(mid.take(), 45.0));
}

#[test]
fn percentage_clamp() {
    assert_eq!(Percentage::new(S64(1.5)).take().0, 1.0);
    assert_eq!(Percentage::new(S64(-0.2)).take().0, 0.0);
    assert_eq!(Percentage::new(S64(0.25)).take().0, 0.25);
}

#[test]
fn percentage_ratio_and_hundred() {
    assert_eq!(Percentage::from(S64(1.0), S64(2.0)).take().0, 0.5);
    assert_eq!(Percentage::from(S64(3.0), S64(2.0)).take().0, 1.0);
    // A zero divisor yields an infinite ratio, which the clamp maps
    // to the upper boundary.
    assert_eq!(Percentage::from(S64(1.0), S64(0.0)).take().0, 1.0);
    assert_eq!(Percentage::<S64>::from_100(50).take().0, 0.5);
    assert_eq!(Percentage::<S64>::from_100(250).take().0, 1.0);
}

#[test]
fn percentage_arithmetic_is_not_reclamped() {
    let a = Percentage::new(S64(0.7));
    assert!(close(a.add(a).take(), 1.4));
    assert!(close(a.sub(Percentage::new(S64(0.2))).take(), 0.5));
    assert!(close(a.mul(Percentage::new(S64(0.5))).take(), 0.35));
    assert!(close(a.div(Percentage::new(S64(0.5))).take(), 1.4));
    assert!(close(a.add_scalar(S64(1.0)).take(), 1.7));
    assert!(close(a.sub_scalar(S64(0.1)).take(), 0.6));
    assert!(close(a.mul_scalar(S64(3.0)).take(), 2.1));
    assert!(close(a.div_scalar(S64(0.5)).take(), 1.4));
}

#[test]
fn scalar_lerp_and_map_range() {
    assert_eq!(lerp_scalar(S64(0.0), S64(10.0), S64(0.5)).0, 5.0);
    assert_eq!(S64::lerp(S64(2.0), S64(4.0), S64(0.25)).0, 2.5);
    assert_eq!(map_range(S64(0.0), S64(10.0), S64(5.0), S64(0.0), S64(100.0)).0, 50.0);
    assert_eq!(inverse_lerp_scalar(S64(0.0), S64(10.0), S64(2.5), |t| t).0, 0.25);
}

#[test]
fn scalar_powers_and_constants() {
    assert_eq!(S64(3.0).squared().0, 9.0);
    assert_eq!(S64(16.0).square_root().0, 4.0);
    assert_eq!(S64(16.0).square_root2().0, 4.0);
    assert_eq!(S64(2.0).power_i(10).0, 1024.0);
    assert_eq!(S64::name_tag(), "d");
    assert_eq!(S64::neg_one().0, -1.0);
    assert_eq!(S64::five().0, 5.0);
    assert_eq!(S64::three().0, 3.0);
}

#[test]
fn vector_magnitude_and_dot() {
    let v = vec2(S64(3.0), S64(4.0));
    assert_eq!(v.length().0, 25.0);
    assert_eq!(v.magnitude().0, 5.0);
    let a = vec3(S64(1.0), S64(2.0), S64(3.0));
    let b = vec3(S64(4.0), S64(-5.0), S64(6.0));
    assert_eq!(a.dot_product(&b).0, 12.0);
    let q = vec4(S64(1.0), S64(1.0), S64(1.0), S64(1.0));
    assert_eq!(q.length().0, 4.0);
    assert_eq!(q.magnitude().0, 2.0);
    assert_eq!(q.dot_product(&q).0, 4.0);
}

#[test]
fn vector_elementwise_arithmetic() {
    let a = vec3(S64(1.0), S64(2.0), S64(3.0));
    let b = vec3(S64(10.0), S64(20.0), S64(30.0));
    let sum = a.add(b);
    assert_eq!((sum.x.0, sum.y.0, sum.z.0), (11.0, 22.0, 33.0));
    let diff = b.sub(a);
    assert_eq!((diff.x.0, diff.y.0, diff.z.0), (9.0, 18.0, 27.0));
    let shifted = a.add_scalar(S64(1.0));
    assert_eq!((shifted.x.0, shifted.y.0, shifted.z.0), (2.0, 3.0, 4.0));
    let scaled = a.mul_scalar(S64(2.0));
    assert_eq!((scaled.x.0, scaled.y.0, scaled.z.0), (2.0, 4.0, 6.0));
    let negated = a.neg();
    assert_eq!((negated.x.0, negated.y.0, negated.z.0), (-1.0, -2.0, -3.0));
    let two = vec2(S64(1.0), S64(2.0)).sub_scalar(S64(1.0));
    assert_eq!((two.x.0, two.y.0), (0.0, 1.0));
}

#[test]
fn vector_normalization() {
    let v = vec3(S64(3.0), S64(0.0), S64(4.0));
    let n = v.normalized();
    assert!(close(n.x, 0.6));
    assert!(close(n.y, 0.0));
    assert!(close(n.z, 0.8));
    let mut m = v;
    m.normalize();
    assert_eq!(m.x.0, n.x.0);
    // The zero vector normalizes to non-finite components by design.
    let z = Vec3::<S64>::zero().normalized();
    assert!(z.x.0.is_nan());
}

#[test]
fn vector_orthogonality() {
    let pairs = [
        (vec3(S64(1.0), S64(0.0), S64(0.0)), vec3(S64(0.0), S64(1.0), S64(0.0))),
        (vec3(S64(1.5), S64(-2.0), S64(0.5)), vec3(S64(3.0), S64(4.0), S64(-1.0))),
        (vec3(S64(0.1), S64(0.2), S64(0.3)), vec3(S64(-0.4), S64(0.5), S64(0.6))),
    ];
    for (a, b) in pairs {
        let c = a.cross(&b);
        assert!(close(c.dot_product(&a), 0.0));
        assert!(close(c.dot_product(&b), 0.0));
    }
}

#[test]
fn vector_angle_between_is_clamped() {
    let a = vec3(S64(1.0), S64(0.0), S64(0.0));
    let b = vec3(S64(0.0), S64(1.0), S64(0.0));
    let theta = a.angle_between(&b);
    assert!(theta.is_radians());
    assert!(close(theta.take(), std::f64::consts::FRAC_PI_2));
    // Parallel vectors can push the cosine ratio past one by
    // rounding; the clamp keeps the angle finite.
    let v = vec3(S64(0.1), S64(0.2), S64(0.3));
    assert!(v.angle_between(&v).take().0.is_finite());
    let w = vec2(S64(0.1), S64(0.7));
    assert!(w.angle_between(&w).take().0.is_finite());
    let u = vec4(S64(0.1), S64(0.7), S64(-0.3), S64(0.9));
    assert!(u.angle_between(&u).take().0.is_finite());
}

#[test]
fn vector_up_and_down() {
    let v2 = vec2(S64(1.0), S64(2.0));
    let v3 = v2.up();
    assert_eq!((v3.x.0, v3.y.0, v3.z.0), (1.0, 2.0, 0.0));
    let v4 = v3.up();
    assert_eq!((v4.x.0, v4.y.0, v4.z.0, v4.w.0), (1.0, 2.0, 0.0, 0.0));
    let d3 = v4.down();
    assert_eq!((d3.x.0, d3.y.0, d3.z.0), (1.0, 2.0, 0.0));
    let d2 = d3.down();
    assert_eq!((d2.x.0, d2.y.0), (1.0, 2.0));
    assert_eq!(Vec3::<S64>::from_array([S64(7.0), S64(8.0), S64(9.0)]).y.0, 8.0);
    assert_eq!(Vec2::<S64>::from_array([S64(7.0), S64(8.0)]).x.0, 7.0);
    assert_eq!(Vec4::<S64>::from_array([S64(1.0), S64(2.0), S64(3.0), S64(4.0)]).w.0, 4.0);
    let v = vec3(S64(5.0), S64(6.0), S64(7.0));
    assert_eq!(v.x().0, 5.0);
    assert_eq!(v.y().0, 6.0);
    assert_eq!(v.z().0, 7.0);
    assert_eq!(v.x_y_z().2 .0, 7.0);
}

#[test]
fn matrix_identity_law() {
    let m2 = Matrix2x2 {
        r0: vec2(S64(1.5), S64(-2.0)),
        r1: vec2(S64(0.25), S64(4.0)),
    };
    let i2: Matrix2x2<S64> = SquareMatrix::identity(None);
    assert_eq!(m2.mul(i2), m2);
    assert_eq!(i2.mul(m2), m2);

    let m4 = Matrix4x4 {
        r0: vec4(S64(1.0), S64(2.0), S64(3.0), S64(4.0)),
        r1: vec4(S64(-5.0), S64(6.5), S64(7.0), S64(8.0)),
        r2: vec4(S64(9.0), S64(10.0), S64(-11.25), S64(12.0)),
        r3: vec4(S64(13.0), S64(14.0), S64(15.0), S64(16.0)),
    };
    let i4: Matrix4x4<S64> = SquareMatrix::identity(None);
    assert_eq!(m4.mul(i4), m4);
    assert_eq!(i4.mul(m4), m4);
}

#[test]
fn matrix_identity_override() {
    let d2: Matrix2x2<S64> = SquareMatrix::identity(Some(S64(3.0)));
    assert_eq!((d2.r0.x.0, d2.r0.y.0, d2.r1.x.0, d2.r1.y.0), (3.0, 0.0, 0.0, 3.0));
    let d3: Matrix3x3<S64> = SquareMatrix::identity(Some(S64(2.0)));
    assert_eq!((d3.r0.x.0, d3.r1.y.0, d3.r2.z.0), (2.0, 2.0, 2.0));
    assert_eq!(d3.r0.y.0, 0.0);
    let d4: Matrix4x4<S64> = SquareMatrix::identity(None);
    assert_eq!((d4.r0.x.0, d4.r1.y.0, d4.r2.z.0, d4.r3.w.0), (1.0, 1.0, 1.0, 1.0));
}

#[test]
fn matrix_transpose_and_elementwise() {
    let m = Matrix2x2 {
        r0: vec2(S64(1.0), S64(2.0)),
        r1: vec2(S64(3.0), S64(4.0)),
    };
    let t = m.transpose();
    assert_eq!((t.r0.x.0, t.r0.y.0, t.r1.x.0, t.r1.y.0), (1.0, 3.0, 2.0, 4.0));
    assert_eq!(t.transpose(), m);
    let s = m.add(m);
    assert_eq!((s.r0.x.0, s.r0.y.0, s.r1.x.0, s.r1.y.0), (2.0, 4.0, 6.0, 8.0));
    let z = m.sub(m);
    assert_eq!((z.r0.x.0, z.r1.y.0), (0.0, 0.0));

    let m3 = Matrix3x3 {
        r0: vec3(S64(1.0), S64(2.0), S64(3.0)),
        r1: vec3(S64(4.0), S64(5.0), S64(6.0)),
        r2: vec3(S64(7.0), S64(8.0), S64(9.0)),
    };
    let t3 = m3.transpose();
    assert_eq!((t3.r0.y.0, t3.r2.x.0), (4.0, 3.0));
    assert_eq!(t3.transpose(), m3);
    assert_eq!(m3.add(m3).r2.z.0, 18.0);
    assert_eq!(m3.sub(m3).r0.x.0, 0.0);

    let m4 = Matrix4x4 {
        r0: vec4(S64(1.0), S64(2.0), S64(3.0), S64(4.0)),
        r1: vec4(S64(5.0), S64(6.0), S64(7.0), S64(8.0)),
        r2: vec4(S64(9.0), S64(10.0), S64(11.0), S64(12.0)),
        r3: vec4(S64(13.0), S64(14.0), S64(15.0), S64(16.0)),
    };
    let t4 = m4.transpose();
    assert_eq!((t4.r0.w.0, t4.r3.x.0), (13.0, 4.0));
    assert_eq!(t4.transpose(), m4);
    assert_eq!(m4.add(m4).r3.w.0, 32.0);
    assert_eq!(m4.sub(m4).r3.w.0, 0.0);
    assert_eq!(Matrix2x2::<S64>::zero().r0.x.0, 0.0);
    assert_eq!(Matrix3x3::<S64>::one().r2.z.0, 1.0);
    assert_eq!(Matrix4x4::<S64>::zero().r3.w.0, 0.0);
}

#[test]
fn matrix_from_array_constructors() {
    let m2 = Matrix2x2::from_array([vec2(S64(1.0), S64(2.0)), vec2(S64(3.0), S64(4.0))]);
    assert_eq!(m2.r1.y.0, 4.0);
    let m3 = Matrix3x3::from_array([
        vec3(S64(1.0), S64(0.0), S64(0.0)),
        vec3(S64(0.0), S64(1.0), S64(0.0)),
        vec3(S64(0.0), S64(0.0), S64(1.0)),
    ]);
    assert_eq!(m3.r2.z.0, 1.0);
    let m4 = Matrix4x4::from_array([
        vec4(S64(1.0), S64(0.0), S64(0.0), S64(0.0)),
        vec4(S64(0.0), S64(1.0), S64(0.0), S64(0.0)),
        vec4(S64(0.0), S64(0.0), S64(1.0), S64(0.0)),
        vec4(S64(0.0), S64(0.0), S64(0.0), S64(1.0)),
    ]);
    assert_eq!(m4.r3.w.0, 1.0);
}

#[test]
fn matrix_multiplication_2x2() {
    let a = Matrix2x2 {
        r0: vec2(S64(1.0), S64(2.0)),
        r1: vec2(S64(3.0), S64(4.0)),
    };
    let b = Matrix2x2 {
        r0: vec2(S64(5.0), S64(6.0)),
        r1: vec2(S64(7.0), S64(8.0)),
    };
    let c = a.mul(b);
    assert_eq!((c.r0.x.0, c.r0.y.0, c.r1.x.0, c.r1.y.0), (19.0, 22.0, 43.0, 50.0));
}

#[test]
fn matrix_axis_rotations() {
    let rx = Matrix3x3::x_rotation(Angle::Degrees(S64(90.0)));
    assert!(close(rx.r0.x, 1.0));
    assert!(close(rx.r1.y, 0.0));
    assert!(close(rx.r1.z, -1.0));
    assert!(close(rx.r2.y, 1.0));
    let ry = Matrix3x3::y_rotation(Angle::Degrees(S64(90.0)));
    assert!(close(ry.r0.z, 1.0));
    assert!(close(ry.r2.x, -1.0));
    let rz = Matrix3x3::z_rotation(Angle::Degrees(S64(90.0)));
    assert!(close(rz.r0.y, -1.0));
    assert!(close(rz.r1.x, 1.0));
    assert!(close(rz.r2.z, 1.0));
}

#[test]
fn matrix_rotation_zyx_and_unsupported_order() {
    let zero = Euler {
        yaw: Angle::Radians(S64(0.0)),
        pitch: Angle::Radians(S64(0.0)),
        roll: Angle::Radians(S64(0.0)),
        debug_flag: DebugFlag::Plain,
    };
    let m = Matrix3x3::rotation(zero, RotationOrder::ZYX).unwrap();
    let i: Matrix3x3<S64> = SquareMatrix::identity(None);
    assert_eq!(m, i);

    let e = Euler {
        yaw: Angle::Degrees(S64(30.0)),
        pitch: Angle::Degrees(S64(40.0)),
        roll: Angle::Degrees(S64(50.0)),
        debug_flag: DebugFlag::Plain,
    };
    assert_eq!(
        Matrix3x3::rotation(e, RotationOrder::XYZ),
        Err(RotationError::UnsupportedOrder)
    );
    // A yaw-only rotation composes to the plain rotation about the
    // third axis.
    let yaw_only = Euler {
        yaw: Angle::Degrees(S64(90.0)),
        pitch: Angle::Radians(S64(0.0)),
        roll: Angle::Radians(S64(0.0)),
        debug_flag: DebugFlag::Plain,
    };
    let m2 = Matrix3x3::rotation(yaw_only, RotationOrder::ZYX).unwrap();
    let rz = Matrix3x3::z_rotation(Angle::Degrees(S64(90.0)));
    for (a, b) in [
        (m2.r0.x, rz.r0.x),
        (m2.r0.y, rz.r0.y),
        (m2.r0.z, rz.r0.z),
        (m2.r1.x, rz.r1.x),
        (m2.r1.y, rz.r1.y),
        (m2.r1.z, rz.r1.z),
        (m2.r2.x, rz.r2.x),
        (m2.r2.y, rz.r2.y),
        (m2.r2.z, rz.r2.z),
    ] {
        assert!(close(a, b.0));
    }
}

#[test]
fn ortho_concrete_scenario() {
    let m = Matrix4x4::ortho(S64(0.0), S64(500.0), S64(0.0), S64(500.0), S64(-1.0), S64(1.0));
    assert_eq!(m.r0.x.0, 2.0 / 500.0);
    assert_eq!(m.r0.y.0, 0.0);
    assert_eq!(m.r0.z.0, 0.0);
    assert_eq!(m.r0.w.0, -1.0);
    assert_eq!(m.r1.y.0, 2.0 / 500.0);
    assert_eq!(m.r1.w.0, -1.0);
    assert_eq!(m.r2.z.0, -1.0);
    assert_eq!(m.r2.w.0, 0.0);
    assert_eq!(m.r3.w.0, 1.0);
}

#[test]
fn translation_scale_perspective_look_at() {
    let t = Matrix4x4::translation(vec3(S64(1.0), S64(2.0), S64(3.0)));
    assert_eq!((t.r0.w.0, t.r1.w.0, t.r2.w.0, t.r3.w.0), (1.0, 2.0, 3.0, 1.0));
    assert_eq!(t.r0.x.0, 1.0);

    let s = Matrix4x4::scale(vec3(S64(2.0), S64(3.0), S64(4.0)));
    assert_eq!((s.r0.x.0, s.r1.y.0, s.r2.z.0, s.r3.w.0), (2.0, 3.0, 4.0, 1.0));

    let p = Matrix4x4::perspective(S64(1.0), Angle::Degrees(S64(90.0)), S64(0.1), S64(100.0));
    assert!(close(p.r0.x, 1.0));
    assert!(close(p.r1.y, 1.0));
    assert!(close(p.r2.z, -(100.0 + 0.1) / (100.0 - 0.1)));
    assert!(close(p.r2.w, -(2.0 * 100.0 * 0.1) / (100.0 - 0.1)));
    assert_eq!(p.r3.z.0, -1.0);

    let eye = vec3(S64(0.0), S64(0.0), S64(5.0));
    let center = vec3(S64(0.0), S64(0.0), S64(0.0));
    let up = vec3(S64(0.0), S64(1.0), S64(0.0));
    let v = Matrix4x4::look_at(&eye, &center, &up);
    // Looking down the third axis: the basis is the standard one and
    // the eye moves to minus its distance.
    assert!(close(v.r0.x, 1.0));
    assert!(close(v.r1.y, 1.0));
    assert!(close(v.r2.z, 1.0));
    assert!(close(v.r3.z, -5.0));
    assert_eq!(v.r3.w.0, 1.0);
}

#[test]
fn quaternion_identity() {
    let zero = Euler {
        yaw: Angle::Radians(S64(0.0)),
        pitch: Angle::Radians(S64(0.0)),
        roll: Angle::Radians(S64(0.0)),
        debug_flag: DebugFlag::Plain,
    };
    assert_eq!(zero.to_quat(), Quaternion::<S64>::identity());
    assert_eq!(Quaternion::<S64>::identity().magnitude().0, 1.0);
}

#[test]
fn quaternion_inverse() {
    let q = Quaternion {
        w: S64(1.2),
        xyz: vec3(S64(0.5), S64(-0.3), S64(0.8)),
    };
    let p = q.mul(q.inverse());
    assert!(close(p.w, 1.0));
    assert!(close(p.xyz.x, 0.0));
    assert!(close(p.xyz.y, 0.0));
    assert!(close(p.xyz.z, 0.0));
}

#[test]
fn quaternion_parts_and_products() {
    let v = vec3(S64(1.0), S64(2.0), S64(3.0));
    let p = Quaternion::pure(v);
    assert_eq!(p.w.0, 0.0);
    assert_eq!(p.xyz.z.0, 3.0);
    let c = p.conjugate();
    assert_eq!((c.xyz.x.0, c.xyz.y.0, c.xyz.z.0), (-1.0, -2.0, -3.0));
    let m = Quaternion {
        w: S64(1.0),
        xyz: vec3(S64(2.0), S64(3.0), S64(4.0)),
    }
    .magnitude();
    assert!(close(m, 30.0_f64.sqrt()));
    let sum = p.add(p);
    assert_eq!(sum.xyz.y.0, 4.0);
    let shifted = p.add_scalar(S64(1.0));
    assert_eq!((shifted.w.0, shifted.xyz.x.0), (1.0, 2.0));
    let scaled = p.mul_scalar(S64(2.0));
    assert_eq!(scaled.xyz.z.0, 6.0);
}

#[test]
fn quaternion_rotates_vectors() {
    // A quarter turn of yaw carries the first axis onto the second.
    let e = Euler {
        yaw: Angle::Degrees(S64(90.0)),
        pitch: Angle::Radians(S64(0.0)),
        roll: Angle::Radians(S64(0.0)),
        debug_flag: DebugFlag::Plain,
    };
    let q = e.to_quat();
    let rotated = q.mul_vec3(vec3(S64(1.0), S64(0.0), S64(0.0)));
    assert!(close(rotated.x, 0.0));
    assert!(close(rotated.y, 1.0));
    assert!(close(rotated.z, 0.0));
}

#[test]
fn quaternion_rotation_matrices() {
    let i = Quaternion::<S64>::identity();
    let m3 = i.to_rotation_3x3();
    let i3: Matrix3x3<S64> = SquareMatrix::identity(None);
    assert_eq!(m3, i3);
    let m4 = i.to_rotation_4x4();
    let i4: Matrix4x4<S64> = SquareMatrix::identity(None);
    assert_eq!(m4, i4);

    let e = Euler {
        yaw: Angle::Degrees(S64(90.0)),
        pitch: Angle::Radians(S64(0.0)),
        roll: Angle::Radians(S64(0.0)),
        debug_flag: DebugFlag::Plain,
    };
    let m = e.to_quat().to_rotation_3x3();
    let rz = Matrix3x3::z_rotation(Angle::Degrees(S64(90.0)));
    assert!(close(m.r0.x, rz.r0.x.0));
    assert!(close(m.r0.y, rz.r0.y.0));
    assert!(close(m.r1.x, rz.r1.x.0));
    assert!(close(m.r2.z, rz.r2.z.0));
}

#[test]
fn euler_conversions() {
    let e = Euler {
        yaw: Angle::Degrees(S64(90.0)),
        pitch: Angle::Degrees(S64(45.0)),
        roll: Angle::Radians(S64(1.0)),
        debug_flag: DebugFlag::Plain,
    };
    let r = e.to_radians();
    assert!(r.yaw.is_radians() && r.pitch.is_radians() && r.roll.is_radians());
    assert!(close(r.yaw.take(), std::f64::consts::FRAC_PI_2));
    let (roll, pitch, yaw) = e.take();
    assert_eq!((roll.0, pitch.0, yaw.0), (1.0, 45.0, 90.0));
    let (roll_r, _, _) = e.take_radians();
    assert_eq!(roll_r.0, 1.0);
    let (_, pitch_d, _) = e.take_degrees();
    assert_eq!(pitch_d.0, 45.0);

    let mut m = e;
    m.radify();
    assert!(m.yaw.is_radians());
    m.degify();
    assert!(m.yaw.is_degrees());
    assert!(close(m.yaw.take(), 90.0));
}

#[test]
fn color_component_conversions() {
    assert_eq!(ColorComponent::<S64>::Byte(255).to_percentage().take().0, 1.0);
    assert_eq!(ColorComponent::<S64>::Byte(51).to_percentage().take().0, 0.2);
    assert_eq!(ColorComponent::<S64>::Byte(0).to_percentage().take().0, 0.0);
    assert_eq!(pct(0.5).to_byte(), 127);
    assert_eq!(pct(1.0).to_byte(), 255);
    assert_eq!(ColorComponent::<S64>::Byte(9).to_byte(), 9);
    assert_eq!(Percentage::new(S64(0.25)).to_color_component().to_percentage().take().0, 0.25);
}

#[test]
fn color_round_trip() {
    let mut channels: Vec<u8> = (0u8..=255).step_by(7).collect();
    channels.push(255);
    for &r in &channels {
        for &g in &channels {
            for &b in &channels {
                let back = byte_rgb(r, g, b).to_hsv().to_rgb().rgb_take_bytes();
                assert!((back[0] as i32 - r as i32).abs() <= 1, "r {r} {g} {b} -> {back:?}");
                assert!((back[1] as i32 - g as i32).abs() <= 1, "g {r} {g} {b} -> {back:?}");
                assert!((back[2] as i32 - b as i32).abs() <= 1, "b {r} {g} {b} -> {back:?}");
            }
        }
    }
}

#[test]
fn color_red_to_hsv_concrete() {
    let hsv = byte_rgb(255, 0, 0).to_hsv();
    match hsv {
        Color::HSV { h, s, v } => {
            assert_eq!(h.take().0, 0.0);
            assert!(h.is_degrees());
            assert_eq!(s.to_percentage().take().0, 1.0);
            assert_eq!(v.to_percentage().take().0, 1.0);
        }
        _ => panic!("expected the HSV variant"),
    }
    assert_eq!(hsv.to_rgb().rgb_take_bytes(), [255, 0, 0]);
}

#[test]
fn color_hsv_tie_break_prefers_later_channels() {
    // With all channels equal the spread is zero: hue and saturation
    // collapse to zero and only the value channel survives.
    let grey = byte_rgb(128, 128, 128).to_hsv();
    match grey {
        Color::HSV { h, s, v } => {
            assert_eq!(h.take().0, 0.0);
            assert_eq!(s.to_percentage().take().0, 0.0);
            assert!(close(v.to_percentage().take(), 128.0 / 255.0));
        }
        _ => panic!("expected the HSV variant"),
    }
    // Green and blue tied at the maximum: the later channel (blue)
    // picks the sector.
    let cyan = byte_rgb(0, 200, 200).to_hsv();
    match cyan {
        Color::HSV { h, .. } => assert_eq!(h.take().0, 180.0),
        _ => panic!("expected the HSV variant"),
    }
    // Black has a zero maximum: saturation falls back to zero.
    let black = byte_rgb(0, 0, 0).to_hsv();
    match black {
        Color::HSV { s, v, .. } => {
            assert_eq!(s.to_percentage().take().0, 0.0);
            assert_eq!(v.to_percentage().take().0, 0.0);
        }
        _ => panic!("expected the HSV variant"),
    }
}

#[test]
fn color_conversion_graph_is_closed() {
    let colors = [
        byte_rgb(12, 200, 64),
        Color::RGBA {
            r: ColorComponent::Byte(12),
            g: ColorComponent::Byte(200),
            b: ColorComponent::Byte(64),
            a: pct(0.5),
        },
        Color::HSV {
            h: Angle::Degrees(S64(200.0)),
            s: pct(0.5),
            v: pct(0.25),
        },
        Color::HSVA {
            h: Angle::Degrees(S64(200.0)),
            s: pct(0.5),
            v: pct(0.25),
            a: pct(0.75),
        },
    ];
    for c in colors {
        assert!(c.to_rgb().is_rgb());
        assert!(c.to_rgba().is_rgba());
        assert!(c.to_hsv().is_hsv());
        assert!(c.to_hsva().is_hsva());
        // Converting twice is converting once.
        assert!(c.to_rgb().to_rgb().is_rgb());
        assert_eq!(c.to_rgb().rgb_take_bytes(), c.to_rgb().to_rgb().rgb_take_bytes());
    }
}

#[test]
fn color_alpha_rules() {
    let rgba = byte_rgb(10, 20, 30).to_rgba();
    match rgba {
        Color::RGBA { a, .. } => assert_eq!(a.to_percentage().take().0, 1.0),
        _ => panic!("expected the RGBA variant"),
    }
    let hsva = Color::HSVA {
        h: Angle::Degrees(S64(10.0)),
        s: pct(0.5),
        v: pct(0.5),
        a: pct(0.25),
    };
    let back = hsva.to_rgba();
    match back {
        Color::RGBA { a, .. } => assert_eq!(a.to_percentage().take().0, 0.25),
        _ => panic!("expected the RGBA variant"),
    }
    assert_eq!(hsva.rgba_take_bytes()[3], 63);
    let from_hsv = Color::HSV {
        h: Angle::Degrees(S64(10.0)),
        s: pct(0.5),
        v: pct(0.5),
    }
    .rgba_take_bytes();
    assert_eq!(from_hsv[3], 255);
    let gained = Color::HSV {
        h: Angle::Degrees(S64(10.0)),
        s: pct(0.5),
        v: pct(0.5),
    }
    .to_hsva();
    match gained {
        Color::HSVA { a, .. } => assert_eq!(a.to_percentage().take().0, 1.0),
        _ => panic!("expected the HSVA variant"),
    }
}

#[test]
fn color_accessors() {
    let rgb = byte_rgb(1, 2, 3);
    assert!(rgb.is_rgb() && rgb.is_rgb_colorspace() && !rgb.is_hsv_colorspace());
    assert!(!rgb.has_alpha());
    assert_eq!(rgb.red().unwrap().to_byte(), 1);
    assert_eq!(rgb.green().unwrap().to_byte(), 2);
    assert_eq!(rgb.blue().unwrap().to_byte(), 3);
    assert!(rgb.alpha().is_none());

    let hsv = Color::HSV {
        h: Angle::Degrees(S64(10.0)),
        s: pct(0.5),
        v: pct(0.5),
    };
    assert!(hsv.is_hsv() && hsv.is_hsv_colorspace() && !hsv.is_rgb_colorspace());
    assert!(hsv.red().is_none() && hsv.green().is_none() && hsv.blue().is_none());

    let rgba = rgb.to_rgba();
    assert!(rgba.is_rgba() && rgba.has_alpha());
    assert!(rgba.alpha().is_some());
    let hsva = hsv.to_hsva();
    assert!(hsva.is_hsva() && hsva.has_alpha());
    assert!(hsva.alpha().is_some());
}

#[test]
fn color_lerp_concrete() {
    let mid = Color::lerp(byte_rgb(0, 0, 0), byte_rgb(255, 255, 255), S64(0.5));
    match mid {
        Color::RGB { r, g, b } => {
            assert!(close(r.to_percentage().take(), 0.5));
            assert!(close(g.to_percentage().take(), 0.5));
            assert!(close(b.to_percentage().take(), 0.5));
        }
        _ => panic!("expected the RGB variant"),
    }
    let bytes = mid.rgb_take_bytes();
    assert!(bytes[0] == 127 || bytes[0] == 128);
}

#[test]
fn color_lerp_alpha_is_asymmetric() {
    // The left alpha faces a right operand without one: it stays at
    // its own value instead of blending toward anything.
    let left = Color::RGBA {
        r: ColorComponent::Byte(0),
        g: ColorComponent::Byte(0),
        b: ColorComponent::Byte(0),
        a: pct(0.8),
    };
    let out = Color::lerp(left, byte_rgb(255, 255, 255), S64(0.5));
    match out {
        Color::RGBA { a, .. } => assert!(close(a.to_percentage().take(), 0.8)),
        _ => panic!("expected the RGBA variant"),
    }
    let left_hsva = Color::HSVA {
        h: Angle::Degrees(S64(0.0)),
        s: pct(0.0),
        v: pct(0.0),
        a: pct(0.3),
    };
    let rhs = Color::HSV {
        h: Angle::Degrees(S64(90.0)),
        s: pct(1.0),
        v: pct(1.0),
    };
    let out2 = Color::lerp(left_hsva, rhs, S64(0.5));
    match out2 {
        Color::HSVA { h, a, .. } => {
            assert!(close(a.to_percentage().take(), 0.3));
            assert!(close(h.take(), 45.0));
        }
        _ => panic!("expected the HSVA variant"),
    }
}

#[test]
fn color_lerp_hsv_blends_hue_as_angle() {
    let a = Color::HSV {
        h: Angle::Degrees(S64(0.0)),
        s: pct(0.0),
        v: pct(1.0),
    };
    let b = Color::HSV {
        h: Angle::Degrees(S64(180.0)),
        s: pct(1.0),
        v: pct(0.0),
    };
    let out = Color::lerp(a, b, S64(0.25));
    match out {
        Color::HSV { h, s, v } => {
            assert!(h.is_degrees());
            assert!(close(h.take(), 45.0));
            assert!(close(s.to_percentage().take(), 0.25));
            assert!(close(v.to_percentage().take(), 0.75));
        }
        _ => panic!("expected the HSV variant"),
    }
}

#[test]
fn render_scalars_vectors_angles() {
    assert_eq!(vec2(S64(1.0), S64(2.0)).to_display_string(), "<1, 2>");
    assert_eq!(vec3(S64(1.0), S64(2.0), S64(3.0)).to_display_string(), "<1, 2, 3>");
    assert_eq!(
        vec4(S64(1.0), S64(2.0), S64(3.0), S64(4.0)).to_display_string(),
        "<1, 2, 3, 4>"
    );
    assert_eq!(Angle::Degrees(S64(5.0)).to_display_string(), "5\u{00b0}");
    assert_eq!(Angle::Radians(S64(5.0)).to_display_string(), "5");
}

#[test]
fn render_euler_styles() {
    let e = Euler {
        yaw: Angle::Degrees(S64(3.0)),
        pitch: Angle::Degrees(S64(2.0)),
        roll: Angle::Degrees(S64(1.0)),
        debug_flag: DebugFlag::Plain,
    };
    assert_eq!(e.to_display_string(), "<1\u{00b0}, 2\u{00b0}, 3\u{00b0}>");
    let ga = Euler { debug_flag: DebugFlag::GreekA, ..e };
    assert_eq!(
        ga.to_display_string(),
        "[\u{03b1}: 1\u{00b0}, \u{03b2}: 2\u{00b0}, \u{03b3}: 3\u{00b0}]"
    );
    let gb = Euler { debug_flag: DebugFlag::GreekB, ..e };
    assert_eq!(
        gb.to_display_string(),
        "[\u{03d5}: 1\u{00b0}, \u{03b8}: 2\u{00b0}, \u{03c8}: 3\u{00b0}]"
    );
}

#[test]
fn render_matrix_grid() {
    let i: Matrix2x2<S64> = SquareMatrix::identity(None);
    assert_eq!(i.to_display_string(), "\u{23a1}1 0\u{23a4}\n\u{23a3}0 1\u{23a6}");
    let m = Matrix2x2 {
        r0: vec2(S64(10.0), S64(0.0)),
        r1: vec2(S64(0.0), S64(1.0)),
    };
    assert_eq!(m.to_display_string(), "\u{23a1}10  0\u{23a4}\n\u{23a3} 0  1\u{23a6}");
    let i3: Matrix3x3<S64> = SquareMatrix::identity(None);
    assert_eq!(
        i3.to_display_string(),
        "\u{23a1}1 0 0\u{23a4}\n\u{23a5}0 1 0\u{23a5}\n\u{23a3}0 0 1\u{23a6}"
    );
    let i4: Matrix4x4<S64> = SquareMatrix::identity(None);
    assert_eq!(
        i4.to_display_string(),
        "\u{23a1}1 0 0 0\u{23a4}\n\u{23a5}0 1 0 0\u{23a5}\n\u{23a5}0 0 1 0\u{23a5}\n\u{23a3}0 0 0 1\u{23a6}"
    );
}

#[test]
fn render_longest_char_scan() {
    let i: Matrix2x2<S64> = SquareMatrix::identity(None);
    // Every cell renders one byte wide; the later cell wins the tie.
    assert_eq!(i.longest_char(), (1, 1, 1));
    let m = Matrix2x2 {
        r0: vec2(S64(10.0), S64(0.0)),
        r1: vec2(S64(0.0), S64(1.0)),
    };
    assert_eq!(m.longest_char(), (0, 0, 2));
    let m3 = Matrix3x3 {
        r0: vec3(S64(0.0), S64(0.0), S64(0.0)),
        r1: vec3(S64(0.0), S64(123.5), S64(0.0)),
        r2: vec3(S64(0.0), S64(0.0), S64(0.0)),
    };
    assert_eq!(m3.longest_char(), (1, 1, 5));
    let m4: Matrix4x4<S64> = SquareMatrix::identity(None);
    assert_eq!(m4.longest_char(), (3, 3, 1));
}

#[test]
fn benchmark_reports_a_mean_duration() {
    let d = gmath::benchmark(
        || {
            let v = vec3(S64(1.0), S64(2.0), S64(3.0));
            let _ = v.magnitude();
        },
        10,
    );
    assert!(d <= std::time::Duration::from_secs(60));
}
