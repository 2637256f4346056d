//! Arithmetic, negation, round-trips and the raw layout checked against
//! values computed natively.

use simple_endian::i32be;
use simple_endian::BigEndian;
use simple_endian::LittleEndian;
use simple_endian::target_is_big_endian;

#[test]
fn negate() {
    let be1 = BigEndian::from(1);
    let be2 = -be1;
    println!("{}, {}", be1.format_dec(), be2.format_dec());
    assert_eq!(be2, i32be::from(-1));
}

#[test]
fn add_integers() {
    let mut be1 = BigEndian::<u32, u32>::from(1234);
    be1 = be1 + BigEndian::from(1);
    be1 = be1 + BigEndian::from(1);
    assert_eq!(be1, 1236.into());
    assert_eq!(be1.to_native(), 1234u32 + 1 + 1);
}

#[test]
fn subtract_integers() {
    let mut be1 = BigEndian::<u32, u32>::from(1234);
    be1 = be1 - BigEndian::from(1);
    be1 = be1 - BigEndian::from(1);
    assert_eq!(be1, 1232.into());
    assert_eq!(be1.to_native(), 1234u32 - 1 - 1);
}

#[test]
fn mul_integers() {
    let mut be1 = BigEndian::<u32, u32>::from(1234);
    be1 = be1 * BigEndian::from(10);
    be1 = be1 * BigEndian::from(10);
    assert_eq!(be1, 123400.into());
    assert_eq!(be1.to_native(), 1234u32 * 10 * 10);
}

#[test]
fn div_integers() {
    let mut ne1: u32 = 1234;
    let mut be1 = BigEndian::<u32, u32>::from(ne1);
    be1 = be1 / BigEndian::from(10);
    ne1 /= 10;
    be1 = be1 / BigEndian::from(10);
    ne1 /= 10;
    assert_eq!(ne1, be1.into());
}

#[test]
fn ops_on_little_endian() {
    let mut le1 = LittleEndian::<i64, i64>::from(-50);
    le1 = le1 + LittleEndian::from(30);
    le1 = le1 * LittleEndian::from(4);
    assert_eq!(le1.to_native(), (-50i64 + 30) * 4);
}

#[test]
fn bitwise_ops() {
    let a = BigEndian::<u32, u32>::from(0xf0f0);
    let b = BigEndian::<u32, u32>::from(0x0ff0);
    assert_eq!((a & b).to_native(), 0xf0f0u32 & 0x0ff0);
    assert_eq!((a | b).to_native(), 0xf0f0u32 | 0x0ff0);
    assert_eq!((a ^ b).to_native(), 0xf0f0u32 ^ 0x0ff0);
}

#[test]
fn round_trip_every_registered_type() {
    assert_eq!(BigEndian::<bool, bool>::from(true).to_native(), true);
    assert_eq!(LittleEndian::<bool, bool>::from(false).to_native(), false);
    assert_eq!(BigEndian::<u8, u8>::from(0xa5).to_native(), 0xa5);
    assert_eq!(LittleEndian::<i8, i8>::from(-7).to_native(), -7);
    assert_eq!(BigEndian::<u16, u16>::from(0xbeef).to_native(), 0xbeef);
    assert_eq!(LittleEndian::<u16, u16>::from(0xbeef).to_native(), 0xbeef);
    assert_eq!(BigEndian::<i16, i16>::from(-12345).to_native(), -12345);
    assert_eq!(LittleEndian::<i16, i16>::from(-12345).to_native(), -12345);
    assert_eq!(BigEndian::<u32, u32>::from(0xdeadbeef).to_native(), 0xdeadbeef);
    assert_eq!(LittleEndian::<u32, u32>::from(0xdeadbeef).to_native(), 0xdeadbeef);
    assert_eq!(BigEndian::<i32, i32>::from(i32::MIN).to_native(), i32::MIN);
    assert_eq!(LittleEndian::<i32, i32>::from(i32::MAX).to_native(), i32::MAX);
    assert_eq!(BigEndian::<u64, u64>::from(u64::MAX).to_native(), u64::MAX);
    assert_eq!(LittleEndian::<u64, u64>::from(0).to_native(), 0);
    assert_eq!(BigEndian::<i64, i64>::from(i64::MIN).to_native(), i64::MIN);
    assert_eq!(LittleEndian::<i64, i64>::from(-1).to_native(), -1);
    assert_eq!(
        BigEndian::<u128, u128>::from(0x0102030405060708090a0b0c0d0e0f10).to_native(),
        0x0102030405060708090a0b0c0d0e0f10,
    );
    assert_eq!(
        LittleEndian::<u128, u128>::from(u128::MAX - 1).to_native(),
        u128::MAX - 1,
    );
    assert_eq!(BigEndian::<i128, i128>::from(i128::MIN).to_native(), i128::MIN);
    assert_eq!(LittleEndian::<i128, i128>::from(i128::MAX).to_native(), i128::MAX);
}

#[test]
fn encoding_agrees_with_std() {
    // The library's own byte-order probe and swaps must place bytes exactly
    // where std's conversions place them, for either kind of target.
    assert_eq!(BigEndian::<u16, u16>::from(0xabcd).to_bits(), 0xabcdu16.to_be());
    assert_eq!(LittleEndian::<u16, u16>::from(0xabcd).to_bits(), 0xabcdu16.to_le());
    assert_eq!(BigEndian::<u32, u32>::from(0xdeadbeef).to_bits(), 0xdeadbeefu32.to_be());
    assert_eq!(LittleEndian::<u32, u32>::from(0xdeadbeef).to_bits(), 0xdeadbeefu32.to_le());
    assert_eq!(
        BigEndian::<u64, u64>::from(0x0102030405060708).to_bits(),
        0x0102030405060708u64.to_be(),
    );
    assert_eq!(
        LittleEndian::<u64, u64>::from(0x0102030405060708).to_bits(),
        0x0102030405060708u64.to_le(),
    );
    assert_eq!(
        BigEndian::<u128, u128>::from(0x0102030405060708090a0b0c0d0e0f10).to_bits(),
        0x0102030405060708090a0b0c0d0e0f10u128.to_be(),
    );
    assert_eq!(BigEndian::<i32, i32>::from(-2).to_bits(), (-2i32).to_be());
    assert_eq!(LittleEndian::<i64, i64>::from(-2).to_bits(), (-2i64).to_le());
    assert_eq!(target_is_big_endian(), u16::from_ne_bytes([1, 0]) != 1);
}

#[test]
fn from_bits_is_verbatim() {
    let w = BigEndian::<u64, u64>::from_bits(0x1122334455667788);
    assert_eq!(w.to_bits(), 0x1122334455667788);
    let v = LittleEndian::<u32, u32>::from_bits(0xcafe);
    assert_eq!(v.to_bits(), 0xcafe);
}

#[test]
fn single_byte_types_store_verbatim() {
    assert_eq!(BigEndian::<u8, u8>::from(0x7f).to_bits(), 0x7f);
    assert_eq!(LittleEndian::<u8, u8>::from(0x7f).to_bits(), 0x7f);
    assert_eq!(BigEndian::<i8, i8>::from(-1).to_bits(), -1);
    assert_eq!(BigEndian::<bool, bool>::from(true).to_bits(), true);
}

#[test]
fn cross_tag_round_trip() {
    let le = LittleEndian::<u64, u64>::from(0xfeed);
    let be = BigEndian::<u64, u64>::from(le);
    assert_eq!(be.to_native(), 0xfeed);
    let back = LittleEndian::<u64, u64>::from(be);
    assert_eq!(back.to_native(), 0xfeed);
    assert_eq!(back.to_bits(), le.to_bits());
}

#[test]
fn pointer_width_round_trip() {
    let u = BigEndian::<usize, usize>::from(0xfeed);
    assert_eq!(u.to_native(), 0xfeed);
    assert_eq!(u.to_bits(), 0xfeedusize.to_be());
    let i = LittleEndian::<isize, isize>::from(-1234);
    assert_eq!(i.to_native(), -1234);
    assert_eq!(i.to_bits(), (-1234isize).to_le());
    assert_eq!(BigEndian::<usize, usize>::from(usize::MAX).to_native(), usize::MAX);
    assert_eq!(BigEndian::<isize, isize>::from(isize::MIN).to_native(), isize::MIN);
}
