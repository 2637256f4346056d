//! Text rendering of wrapper values, checked against what the native types
//! print through std's formatting.

use simple_endian::format_radix_u128;
use simple_endian::BigEndian;
use simple_endian::LittleEndian;

#[test]
fn decimal_matches_native() {
    assert_eq!(BigEndian::<u32, u32>::from(1234).format_dec(), format!("{}", 1234u32));
    assert_eq!(BigEndian::<i32, i32>::from(-1234).format_dec(), format!("{}", -1234i32));
    assert_eq!(LittleEndian::<u64, u64>::from(0).format_dec(), format!("{}", 0u64));
    assert_eq!(
        LittleEndian::<i64, i64>::from(i64::MIN).format_dec(),
        format!("{}", i64::MIN),
    );
    assert_eq!(
        BigEndian::<i128, i128>::from(i128::MIN).format_dec(),
        format!("{}", i128::MIN),
    );
    assert_eq!(
        BigEndian::<u128, u128>::from(u128::MAX).format_dec(),
        format!("{}", u128::MAX),
    );
}

#[test]
fn hex_matches_native() {
    assert_eq!(
        BigEndian::<u32, u32>::from(0xdeadbeef).format_hex_lower(),
        format!("{:x}", 0xdeadbeefu32),
    );
    assert_eq!(
        BigEndian::<u32, u32>::from(0xdeadbeef).format_hex_upper(),
        format!("{:X}", 0xdeadbeefu32),
    );
    assert_eq!(BigEndian::<i32, i32>::from(-2).format_hex_lower(), format!("{:x}", -2i32));
    assert_eq!(
        LittleEndian::<i16, i16>::from(-1).format_hex_upper(),
        format!("{:X}", -1i16),
    );
    assert_eq!(LittleEndian::<u8, u8>::from(0).format_hex_lower(), format!("{:x}", 0u8));
}

#[test]
fn octal_and_binary_match_native() {
    assert_eq!(BigEndian::<u16, u16>::from(0o755).format_octal(), format!("{:o}", 0o755u16));
    assert_eq!(BigEndian::<i8, i8>::from(-3).format_octal(), format!("{:o}", -3i8));
    assert_eq!(
        LittleEndian::<u16, u16>::from(0b1011).format_binary(),
        format!("{:b}", 0b1011u16),
    );
    assert_eq!(BigEndian::<i64, i64>::from(-5).format_binary(), format!("{:b}", -5i64));
}

#[test]
fn radix_formatting_edge_values() {
    assert_eq!(format_radix_u128(0, 2, false), "0");
    assert_eq!(format_radix_u128(255, 16, false), "ff");
    assert_eq!(format_radix_u128(255, 16, true), "FF");
    assert_eq!(format_radix_u128(8, 8, false), "10");
    assert_eq!(format_radix_u128(u128::MAX, 16, false), format!("{:x}", u128::MAX));
    assert_eq!(format_radix_u128(u128::MAX, 10, false), format!("{}", u128::MAX));
}

#[test]
fn pointer_width_formatting_matches_native() {
    assert_eq!(BigEndian::<usize, usize>::from(4096).format_dec(), format!("{}", 4096usize));
    assert_eq!(
        LittleEndian::<isize, isize>::from(-77).format_dec(),
        format!("{}", -77isize),
    );
    assert_eq!(
        BigEndian::<isize, isize>::from(-2).format_hex_lower(),
        format!("{:x}", -2isize),
    );
}
