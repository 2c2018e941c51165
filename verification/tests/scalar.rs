use vertesaur::scalar::isqrt::isqrt;
use vertesaur::scalar::Algebraic;
use vertesaur::scalar::One;
use vertesaur::scalar::Signed;
use vertesaur::scalar::Zero;

#[test]
fn isqrt_rounds_down() {
    assert_eq!(isqrt(0), 0);
    assert_eq!(isqrt(1), 1);
    assert_eq!(isqrt(2), 1);
    assert_eq!(isqrt(3), 1);
    assert_eq!(isqrt(4), 2);
    assert_eq!(isqrt(24), 4);
    assert_eq!(isqrt(25), 5);
    assert_eq!(isqrt(26), 5);
    assert_eq!(isqrt(1_000_000), 1_000);
    assert_eq!(isqrt(999_999), 999);
}

#[test]
fn isqrt_of_the_largest_values() {
    assert_eq!(isqrt(u128::MAX), u64::MAX as u128);
    assert_eq!(isqrt((u64::MAX as u128) * (u64::MAX as u128)), u64::MAX as u128);
    assert_eq!(isqrt((u64::MAX as u128) * (u64::MAX as u128) - 1), u64::MAX as u128 - 1);
    assert_eq!(isqrt(1u128 << 64), 1u128 << 32);
}

#[test]
fn isqrt_brackets_its_argument() {
    let mut n: u128 = 0;
    while n < 5_000 {
        let r = isqrt(n);
        assert!(r * r <= n && n < (r + 1) * (r + 1));
        n += 1;
    }
}

#[test]
fn identities_of_the_signed_integers() {
    assert_eq!((<i8 as Zero>::zero(), <i8 as One>::one()), (0i8, 1i8));
    assert_eq!((<i16 as Zero>::zero(), <i16 as One>::one()), (0i16, 1i16));
    assert_eq!((<i32 as Zero>::zero(), <i32 as One>::one()), (0i32, 1i32));
    assert_eq!((<i64 as Zero>::zero(), <i64 as One>::one()), (0i64, 1i64));
    assert_eq!((<i128 as Zero>::zero(), <i128 as One>::one()), (0i128, 1i128));
    assert_eq!((<isize as Zero>::zero(), <isize as One>::one()), (0isize, 1isize));
}

#[test]
fn identities_of_the_unsigned_integers() {
    assert_eq!((<u8 as Zero>::zero(), <u8 as One>::one()), (0u8, 1u8));
    assert_eq!((<u16 as Zero>::zero(), <u16 as One>::one()), (0u16, 1u16));
    assert_eq!((<u32 as Zero>::zero(), <u32 as One>::one()), (0u32, 1u32));
    assert_eq!((<u64 as Zero>::zero(), <u64 as One>::one()), (0u64, 1u64));
    assert_eq!((<u128 as Zero>::zero(), <u128 as One>::one()), (0u128, 1u128));
    assert_eq!((<usize as Zero>::zero(), <usize as One>::one()), (0usize, 1usize));
}

#[test]
fn is_zero_of_integers() {
    assert!(0i8.is_zero() && !1i8.is_zero() && !(-1i8).is_zero());
    assert!(0i16.is_zero() && !i16::MIN.is_zero());
    assert!(0i32.is_zero() && !i32::MAX.is_zero());
    assert!(0i64.is_zero() && !7i64.is_zero());
    assert!(0i128.is_zero() && !7i128.is_zero());
    assert!(0isize.is_zero() && !7isize.is_zero());
    assert!(0u8.is_zero() && !255u8.is_zero());
    assert!(0u16.is_zero() && !1u16.is_zero());
    assert!(0u32.is_zero() && !1u32.is_zero());
    assert!(0u64.is_zero() && !1u64.is_zero());
    assert!(0u128.is_zero() && !1u128.is_zero());
    assert!(0usize.is_zero() && !1usize.is_zero());
}

#[test]
fn abs_of_signed_integers() {
    assert_eq!((Signed::abs(&-5i8), Signed::abs(&5i8), Signed::abs(&0i8)), (5i8, 5i8, 0i8));
    assert_eq!(Signed::abs(&-127i8), 127i8);
    assert_eq!(Signed::abs(&-300i16), 300i16);
    assert_eq!(Signed::abs(&i32::MAX), i32::MAX);
    assert_eq!(Signed::abs(&(i32::MIN + 1)), i32::MAX);
    assert_eq!(Signed::abs(&-9i64), 9i64);
    assert_eq!(Signed::abs(&-9i128), 9i128);
    assert_eq!(Signed::abs(&-9isize), 9isize);
}

#[test]
fn sqrt_of_integers() {
    assert_eq!(Algebraic::sqrt(&120i8), 10i8);
    assert_eq!(Algebraic::sqrt(&i16::MAX), 181i16);
    assert_eq!(Algebraic::sqrt(&25i32), 5i32);
    assert_eq!(Algebraic::sqrt(&i64::MAX), 3_037_000_499i64);
    assert_eq!(Algebraic::sqrt(&i128::MAX), 13_043_817_825_332_782_212i128);
    assert_eq!(Algebraic::sqrt(&99isize), 9isize);
    assert_eq!(Algebraic::sqrt(&255u8), 15u8);
    assert_eq!(Algebraic::sqrt(&u16::MAX), 255u16);
    assert_eq!(Algebraic::sqrt(&u32::MAX), 65_535u32);
    assert_eq!(Algebraic::sqrt(&u64::MAX), 4_294_967_295u64);
    assert_eq!(Algebraic::sqrt(&u128::MAX), 18_446_744_073_709_551_615u128);
    assert_eq!(Algebraic::sqrt(&0usize), 0usize);
}
