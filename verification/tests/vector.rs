use std::num::Wrapping;
use std::ops::Add;
use std::ops::Div;
use std::ops::Mul;
use std::ops::Neg;
use std::ops::Sub;
use vertesaur::scalar::Algebraic;
use vertesaur::scalar::One;
use vertesaur::scalar::Signed;
use vertesaur::scalar::Zero;
use vertesaur::vector::Vector1;
use vertesaur::vector::Vector2;
use vertesaur::vector::Vector3;
use vertesaur::vector::Vector4;

/// A floating-point scalar for the vector types.
#[derive(Clone, Copy, Debug, PartialEq)]
struct Real(f64);

impl Add for Real {
    type Output = Real;

    fn add(self, rhs: Real) -> Real {
        Real(self.0 + rhs.0)
    }
}

impl Sub for Real {
    type Output = Real;

    fn sub(self, rhs: Real) -> Real {
        Real(self.0 - rhs.0)
    }
}

impl Mul for Real {
    type Output = Real;

    fn mul(self, rhs: Real) -> Real {
        Real(self.0 * rhs.0)
    }
}

impl Div for Real {
    type Output = Real;

    fn div(self, rhs: Real) -> Real {
        Real(self.0 / rhs.0)
    }
}

impl Neg for Real {
    type Output = Real;

    fn neg(self) -> Real {
        Real(-self.0)
    }
}

impl Zero for Real {
    fn zero_spec() -> Real {
        Real(0.0)
    }

    fn zero() -> Real {
        Real(0.0)
    }

    fn is_zero(&self) -> bool {
        self.0 == 0.0
    }
}

impl One for Real {
    fn one_spec() -> Real {
        Real(1.0)
    }

    fn one() -> Real {
        Real(1.0)
    }
}

impl Signed for Real {
    fn abs_req(self) -> bool {
        true
    }

    fn abs_spec(self) -> Real {
        Real(self.0.abs())
    }

    fn abs(&self) -> Real {
        Real(self.0.abs())
    }
}

impl Algebraic for Real {
    fn sqrt_req(self) -> bool {
        true
    }

    fn sqrt_spec(self) -> Real {
        Real(self.0.sqrt())
    }

    fn sqrt(&self) -> Real {
        Real(self.0.sqrt())
    }
}

fn approx_eq(a: (f64, f64), b: (f64, f64)) -> bool {
    (a.0 - b.0).abs() < 1.0e-6 && (a.1 - b.1).abs() < 1.0e-6
}

#[test]
fn new_vector2() {
    let v: Vector2<isize> = Vector2::new(1isize, 2isize);
    assert_eq!((v.x, v.y), (1isize, 2isize));
}

#[test]
fn add_vector2() {
    let v = Vector2 { x: 1isize, y: 2isize } + Vector2 { x: 3isize, y: 5isize };
    assert_eq!((v.x, v.y), (4isize, 7isize));
}

#[test]
fn sub_vector2() {
    let v = Vector2 { x: 1isize, y: 5isize } - Vector2 { x: 3isize, y: 2isize };
    assert_eq!((v.x, v.y), (-2isize, 3isize));
}

#[test]
fn scalar_mul_vector2() {
    let v = Vector2 { x: 1_f64, y: -3_f64 } * 3_f64;
    assert_eq!((v.x, v.y), (3_f64, -9_f64));
}

#[test]
fn mag_vector2() {
    let v = Vector2 { x: Real(3_f64), y: Real(4_f64) };
    let mut u = Vector2 { x: Real(3_f64), y: Real(4_f64) };
    u.set_magnitude(&Real(3_f64));
    let t = v.with_magnitude(&Real(2_f64));
    assert_eq!(v.mag_sq().0, 25_f64);
    assert_eq!(v.mag().0, 5_f64);
    assert!(approx_eq((u.x.0, u.y.0), (1.8_f64, 2.4_f64)));
    assert!(approx_eq((t.x.0, t.y.0), (1.2_f64, 1.6_f64)));
}

#[test]
fn zero_vector2() {
    let v: Vector2<isize> = Zero::zero();
    assert_eq!((v.x, v.y), (0isize, 0isize));
}

#[test]
fn normal_vector2() {
    let v = Vector2 { x: Real(3_f64), y: Real(0_f64) };
    let n = v.normal();
    assert_eq!((n.x.0, n.y.0), (1_f64, 0_f64));
}

#[test]
fn dot_vector2() {
    let a = Vector2 { x: 5_f64, y: 2_f64 };
    let b = Vector2 { x: 3_f64, y: -3_f64 };
    assert_eq!(a.dot(&b), 9_f64);
}

#[test]
fn perp_dot_vector2() {
    let a = Vector2 { x: 5isize, y: 2isize };
    let b = Vector2 { x: 3isize, y: -3isize };
    assert_eq!(a.perp_dot(&b), -21isize);
    assert_eq!(b.perp_dot(&a), 21isize);
}

#[test]
fn neg_vector2() {
    let v = Vector2 { x: 1isize, y: -2isize }.neg();
    assert_eq!((v.x, v.y), (-1isize, 2isize));
}

#[test]
fn unit_vector1() {
    let u: Vector1<Real> = Vector1::unit();
    assert_eq!(u.x.0, 1_f64);
}

#[test]
fn unit_vector2() {
    let x: Vector2<Real> = Vector2::x_unit();
    let y: Vector2<isize> = Vector2::y_unit();
    assert_eq!((x.x.0, x.y.0), (1_f64, 0_f64));
    assert_eq!((y.x, y.y), (0isize, 1isize));
}

#[test]
fn unit_vector3() {
    let x: Vector3<Real> = Vector3::x_unit();
    let y: Vector3<isize> = Vector3::y_unit();
    let z: Vector3<isize> = Vector3::z_unit();
    assert_eq!((x.x.0, x.y.0, x.z.0), (1_f64, 0_f64, 0_f64));
    assert_eq!((y.x, y.y, y.z), (0isize, 1isize, 0isize));
    assert_eq!((z.x, z.y, z.z), (0isize, 0isize, 1isize));
}

#[test]
fn unit_vector4() {
    let x: Vector4<Real> = Vector4::x_unit();
    let y: Vector4<isize> = Vector4::y_unit();
    let z: Vector4<isize> = Vector4::z_unit();
    let w: Vector4<isize> = Vector4::w_unit();
    assert_eq!((x.x.0, x.y.0, x.z.0, x.w.0), (1_f64, 0_f64, 0_f64, 0_f64));
    assert_eq!((y.x, y.y, y.z, y.w), (0isize, 1isize, 0isize, 0isize));
    assert_eq!((z.x, z.y, z.z, z.w), (0isize, 0isize, 1isize, 0isize));
    assert_eq!((w.x, w.y, w.z, w.w), (0isize, 0isize, 0isize, 1isize));
}

#[test]
fn is_zero_compares_every_component() {
    let z: Vector2<isize> = Zero::zero();
    assert!(z.is_zero());
    assert!(!Vector2 { x: 0isize, y: 1isize }.is_zero());
    assert!(!Vector2 { x: 1isize, y: 0isize }.is_zero());
    assert!(Vector1 { x: 0u8 }.is_zero());
    assert!(!Vector1 { x: 3u8 }.is_zero());
    assert!(Vector3 { x: 0i32, y: 0i32, z: 0i32 }.is_zero());
    assert!(!Vector3 { x: 0i32, y: 0i32, z: -1i32 }.is_zero());
    assert!(Vector4 { x: 0i64, y: 0i64, z: 0i64, w: 0i64 }.is_zero());
    assert!(!Vector4 { x: 0i64, y: 0i64, z: 0i64, w: 9i64 }.is_zero());
    assert!(Vector2 { x: Real(0.0), y: Real(0.0) }.is_zero());
    assert!(!Vector2 { x: Real(0.0), y: Real(0.5) }.is_zero());
}

#[test]
fn equality_is_componentwise() {
    assert!(Vector2 { x: 1isize, y: 2isize } == Vector2 { x: 1isize, y: 2isize });
    assert!(Vector2 { x: 1isize, y: 2isize } != Vector2 { x: 1isize, y: 3isize });
    assert!(Vector2 { x: 1isize, y: 2isize } != Vector2 { x: 0isize, y: 2isize });
    assert!(Vector1 { x: 4u16 } == Vector1 { x: 4u16 });
    assert!(Vector3 { x: 1i8, y: 2i8, z: 3i8 } != Vector3 { x: 1i8, y: 2i8, z: 4i8 });
    let f = Vector4 { x: 1.0, y: 2.0, z: 3.0, w: 4.0 };
    assert!(f == Vector4 { x: 1.0, y: 2.0, z: 3.0, w: 4.0 });
    assert!(f != Vector4 { x: 1.0, y: 2.0, z: 3.0, w: 4.5 });
}

#[test]
fn copies_are_interchangeable() {
    let v = Vector3 { x: 1i64, y: 2i64, z: 3i64 };
    let w = v;
    let c = v.clone();
    assert_eq!(v, w);
    assert_eq!(v, c);
}

#[test]
fn adding_zero_changes_nothing() {
    let v = Vector2 { x: 7isize, y: -9isize };
    assert_eq!(v + Zero::zero(), v);
    let u = Vector4 { x: 1u8, y: 2u8, z: 3u8, w: 255u8 };
    assert_eq!(u + Zero::zero(), u);
}

#[test]
fn adding_the_negation_gives_zero() {
    let v = Vector2 { x: 7isize, y: -9isize };
    assert_eq!(v + v.neg(), Zero::zero());
    let u = Vector3 { x: -128i16, y: 0i16, z: 127i16 };
    assert_eq!(u + (-u), Zero::zero());
}

#[test]
fn negation_is_subtraction_from_zero() {
    let v = Vector4 { x: 1i32, y: -2i32, z: 3i32, w: -4i32 };
    let z: Vector4<i32> = Zero::zero();
    assert_eq!(-v, z - v);
    assert_eq!(-v, Vector4 { x: -1i32, y: 2i32, z: -3i32, w: 4i32 });
}

#[test]
fn addition_is_commutative_and_associative() {
    let u = Vector2 { x: 1isize, y: 2isize };
    let v = Vector2 { x: 3isize, y: 5isize };
    let w = Vector2 { x: -8isize, y: 13isize };
    assert_eq!(v + w, w + v);
    assert_eq!((u + v) + w, u + (v + w));
    assert_eq!((u + v) + w, Vector2 { x: -4isize, y: 20isize });
}

#[test]
fn scaling_distributes_over_addition() {
    let v = Vector2 { x: 1isize, y: 2isize };
    let w = Vector2 { x: 3isize, y: -5isize };
    assert_eq!((v + w) * 4, v * 4 + w * 4);
    assert_eq!((v + w) * 4, Vector2 { x: 16isize, y: -12isize });
    let a = Vector3 { x: 1u64, y: 2u64, z: 3u64 };
    let b = Vector3 { x: 4u64, y: 5u64, z: 6u64 };
    assert_eq!((a + b) * 10, a * 10 + b * 10);
}

#[test]
fn dot_is_additive_and_symmetric() {
    let a = Vector2 { x: 1isize, y: 2isize };
    let b = Vector2 { x: 3isize, y: -5isize };
    let c = Vector2 { x: -7isize, y: 11isize };
    assert_eq!((a + b).dot(&c), a.dot(&c) + b.dot(&c));
    assert_eq!((a + b).dot(&c), -61isize);
    assert_eq!(a.dot(&b), b.dot(&a));
    let p = Vector4 { x: 1i64, y: 2i64, z: 3i64, w: 4i64 };
    let q = Vector4 { x: -1i64, y: 0i64, z: 5i64, w: 2i64 };
    let r = Vector4 { x: 2i64, y: 2i64, z: -2i64, w: 1i64 };
    assert_eq!((p + q).dot(&r), p.dot(&r) + q.dot(&r));
    assert_eq!(p.dot(&q), q.dot(&p));
    assert_eq!(p.dot(&q), 22i64);
}

#[test]
fn perp_dot_is_antisymmetric() {
    let a = Vector2 { x: 5isize, y: 2isize };
    let b = Vector2 { x: 3isize, y: -3isize };
    assert_eq!(a.perp_dot(&b), -b.perp_dot(&a));
    assert_eq!(a.perp_dot(&a), 0isize);
    assert_eq!(b.perp_dot(&b), 0isize);
}

#[test]
fn in_place_forms_agree_with_value_forms() {
    let v = Vector2 { x: 6isize, y: -9isize };
    let mut m = v;
    m.mul_assign(&3);
    assert_eq!(m, v * 3);
    assert_eq!(m, Vector2 { x: 18isize, y: -27isize });
    let mut d = v;
    d.div_assign(&3);
    assert_eq!(d, v / 3);
    assert_eq!(d, Vector2 { x: 2isize, y: -3isize });

    let f = Vector3 { x: Real(1.0), y: Real(2.0), z: Real(2.0) };
    let mut n = f;
    n.normalize();
    assert_eq!(n, f.normal());
    let mut s = f;
    s.set_magnitude(&Real(6.0));
    assert_eq!(s, f.with_magnitude(&Real(6.0)));
    assert_eq!(s, Vector3 { x: Real(2.0), y: Real(4.0), z: Real(4.0) });
}

#[test]
fn divide_vectors() {
    let v = Vector2 { x: 7isize, y: -7isize } / 2;
    assert_eq!((v.x, v.y), (3isize, -3isize));
    let w = Vector4 { x: 1.0, y: -3.0, z: 0.0, w: 10.0 } / 4.0;
    assert_eq!((w.x, w.y, w.z, w.w), (0.25, -0.75, 0.0, 2.5));
    let u = Vector1 { x: 9u8 } / 2;
    assert_eq!(u.x, 4u8);
}

#[test]
fn division_by_a_zero_float_is_passed_through() {
    let v = Vector2 { x: 1.0_f64, y: -1.0_f64 } / 0.0;
    assert_eq!((v.x, v.y), (f64::INFINITY, f64::NEG_INFINITY));
    let z = Vector2 { x: Real(0.0), y: Real(0.0) };
    let n = z.normal();
    assert!(n.x.0.is_nan() && n.y.0.is_nan());
    let m = z.with_magnitude(&Real(2.0));
    assert!(m.x.0.is_nan() && m.y.0.is_nan());
}

#[test]
fn vector1_operations() {
    let v = Vector1::new(-7i32);
    let w = Vector1 { x: 3i32 };
    assert_eq!((v + w).x, -4);
    assert_eq!((v - w).x, -10);
    assert_eq!((-v).x, 7);
    assert_eq!((v * 2).x, -14);
    assert_eq!(v.mag_sq(), 49);
    assert_eq!(v.dot(&w), -21);
    assert_eq!(v.mag(), 7);
    assert_eq!(w.mag(), 3);
    assert_eq!(Vector1 { x: Real(-2.5) }.mag().0, 2.5);
    let u: Vector1<i32> = Vector1::unit();
    assert_eq!(u.x, 1);
}

#[test]
fn vector1_magnitude_is_the_root_of_the_squared_magnitude() {
    let v = Vector1 { x: -12i64 };
    assert_eq!(v.mag(), v.mag_sq().sqrt());
    let f = Vector1 { x: Real(-1.5) };
    assert_eq!(f.mag(), f.mag_sq().sqrt());
}

#[test]
fn vector3_operations() {
    let v = Vector3::new(1i64, -2i64, 3i64);
    let w = Vector3 { x: 4i64, y: 5i64, z: -6i64 };
    assert_eq!(v + w, Vector3 { x: 5i64, y: 3i64, z: -3i64 });
    assert_eq!(v - w, Vector3 { x: -3i64, y: -7i64, z: 9i64 });
    assert_eq!(v * -2, Vector3 { x: -2i64, y: 4i64, z: -6i64 });
    assert_eq!(v.dot(&w), -24i64);
    assert_eq!(v.mag_sq(), 14i64);
    assert_eq!(Vector3 { x: 2i64, y: 3i64, z: 6i64 }.mag(), 7i64);
    let f = Vector3 { x: Real(2.0), y: Real(3.0), z: Real(6.0) };
    assert_eq!(f.mag().0, 7.0);
    let n = Vector3 { x: Real(0.0), y: Real(-4.0), z: Real(0.0) }.normal();
    assert_eq!((n.x.0, n.y.0, n.z.0), (0.0, -1.0, 0.0));
}

#[test]
fn vector4_operations() {
    let v = Vector4::new(1i64, -2i64, 3i64, -4i64);
    let w = Vector4 { x: 2i64, y: 2i64, z: 2i64, w: 2i64 };
    assert_eq!(v + w, Vector4 { x: 3i64, y: 0i64, z: 5i64, w: -2i64 });
    assert_eq!(v - w, Vector4 { x: -1i64, y: -4i64, z: 1i64, w: -6i64 });
    assert_eq!(v * 3, Vector4 { x: 3i64, y: -6i64, z: 9i64, w: -12i64 });
    assert_eq!(v.dot(&w), -4i64);
    assert_eq!(v.mag_sq(), 30i64);
    assert_eq!(w.mag(), 4i64);
    let f = Vector4 { x: Real(2.0), y: Real(2.0), z: Real(2.0), w: Real(2.0) };
    assert_eq!(f.mag().0, 4.0);
    let t = f.with_magnitude(&Real(1.0));
    assert_eq!((t.x.0, t.y.0, t.z.0, t.w.0), (0.5, 0.5, 0.5, 0.5));
}

#[test]
fn integer_vectors_have_integer_magnitudes() {
    let v = Vector2 { x: 3isize, y: 4isize };
    assert_eq!(v.mag_sq(), 25isize);
    assert_eq!(v.mag(), 5isize);
    assert_eq!(Vector2 { x: 1u8, y: 1u8 }.mag(), 1u8);
    assert_eq!(Vector2 { x: 5i32, y: 5i32 }.mag(), 7i32);
    let t = v.with_magnitude(&10);
    assert_eq!((t.x, t.y), (6isize, 8isize));
    let n = Vector2 { x: 0isize, y: -6isize }.normal();
    assert_eq!((n.x, n.y), (0isize, -1isize));
}

#[test]
fn magnitude_is_not_negative() {
    assert!(Vector2 { x: Real(-3.0), y: Real(-4.0) }.mag().0 >= 0.0);
    assert!(Vector3 { x: Real(-1.0), y: Real(0.0), z: Real(0.0) }.mag().0 >= 0.0);
    assert!(Vector2 { x: Real(0.0), y: Real(0.0) }.mag().0 >= 0.0);
    assert!(Vector1 { x: -3i8 }.mag() >= 0);
    assert!(Vector4 { x: -1i16, y: -1i16, z: -1i16, w: -1i16 }.mag() >= 0);
}

#[test]
fn magnitude_is_the_root_of_the_squared_magnitude() {
    let v = Vector2 { x: Real(1.5), y: Real(-2.5) };
    assert!((v.mag().0 - v.mag_sq().0.sqrt()).abs() < 1.0e-6);
    let w = Vector4 { x: Real(0.1), y: Real(0.2), z: Real(0.3), w: Real(0.4) };
    assert!((w.mag().0 - w.mag_sq().0.sqrt()).abs() < 1.0e-6);
    assert!((w.mag().0 - 0.3_f64.sqrt()).abs() < 1.0e-6);
}

#[test]
fn normals_have_magnitude_one() {
    let v = Vector2 { x: Real(3.0), y: Real(-7.0) };
    assert!((v.normal().mag().0 - 1.0).abs() < 1.0e-6);
    let w = Vector3 { x: Real(0.001), y: Real(250.0), z: Real(-2.0) };
    assert!((w.normal().mag().0 - 1.0).abs() < 1.0e-6);
    let u = Vector4 { x: Real(1.0), y: Real(1.0), z: Real(1.0), w: Real(1.0) };
    assert!((u.normal().mag().0 - 1.0).abs() < 1.0e-6);
    let mut n = u;
    n.normalize();
    assert_eq!((n.x.0, n.y.0, n.z.0, n.w.0), (0.5, 0.5, 0.5, 0.5));
}

#[test]
fn unit_vectors_of_integers() {
    let x: Vector2<isize> = Vector2::x_unit();
    assert_eq!((x.x, x.y), (1isize, 0isize));
    let x3: Vector3<u64> = Vector3::x_unit();
    assert_eq!((x3.x, x3.y, x3.z), (1u64, 0u64, 0u64));
    let x4: Vector4<i8> = Vector4::x_unit();
    assert_eq!((x4.x, x4.y, x4.z, x4.w), (1i8, 0i8, 0i8, 0i8));
    let y: Vector2<Real> = Vector2::y_unit();
    assert_eq!((y.x.0, y.y.0), (0_f64, 1_f64));
}

#[test]
fn overflow_is_left_to_the_scalar_type() {
    let v = Vector2 { x: Wrapping(250u8), y: Wrapping(3u8) };
    let w = Vector2 { x: Wrapping(10u8), y: Wrapping(4u8) };
    let s = v + w;
    assert_eq!((s.x.0, s.y.0), (4u8, 7u8));
    let d = w - v;
    assert_eq!((d.x.0, d.y.0), (16u8, 1u8));
    let m = v * Wrapping(2u8);
    assert_eq!((m.x.0, m.y.0), (244u8, 6u8));
    assert_eq!(v.dot(&w).0, 208u8);
    assert_eq!(v.mag_sq().0, 45u8);
    assert_eq!(v.perp_dot(&w).0, 202u8);
    let n = -Vector3 { x: Wrapping(i8::MIN), y: Wrapping(1i8), z: Wrapping(0i8) };
    assert_eq!((n.x.0, n.y.0, n.z.0), (i8::MIN, -1i8, 0i8));
    let mut q = Vector4::new(Wrapping(200u8), Wrapping(100u8), Wrapping(3u8), Wrapping(0u8));
    q.mul_assign(&Wrapping(3u8));
    assert_eq!((q.x.0, q.y.0, q.z.0, q.w.0), (88u8, 44u8, 9u8, 0u8));
    q.div_assign(&Wrapping(4u8));
    assert_eq!((q.x.0, q.y.0, q.z.0, q.w.0), (22u8, 11u8, 2u8, 0u8));
}
