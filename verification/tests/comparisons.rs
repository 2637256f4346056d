//! Comparison behaviour of the wrapper types.

use simple_endian::BigEndian;

#[test]
fn equality_test() {
    let be1 = BigEndian::from(12345);
    let be2 = BigEndian::from(12345);
    assert!(be1 == be2);
}

#[test]
fn not_equality_test() {
    let be1 = BigEndian::from(12345);
    let be2 = BigEndian::from(34565);
    assert!(be1 != be2);
}

#[test]
fn lt_test() {
    let be1 = BigEndian::from(12345);
    let be2 = BigEndian::from(34565);
    assert!(be1 < be2);
}

#[test]
fn gt_test() {
    let be1 = BigEndian::from(34565);
    let be2 = BigEndian::from(12345);
    assert!(be1 > be2);
}

#[test]
fn equality_across_construction_paths() {
    let a = BigEndian::<u64, u64>::from(5);
    let b = BigEndian::<u64, u64>::from_bits(a.to_bits());
    assert!(a == b);
    assert_eq!(a.to_native(), b.to_native());
}

#[test]
fn ordering_is_by_decoded_value() {
    // On either kind of target, 0x0102 decodes below 0x0201 even though the
    // stored raw patterns compare the other way on one of them.
    let small = BigEndian::<u16, u16>::from(0x0102);
    let large = BigEndian::<u16, u16>::from(0x0201);
    assert!(small < large);
    let small_le = simple_endian::LittleEndian::<u16, u16>::from(0x0102);
    let large_le = simple_endian::LittleEndian::<u16, u16>::from(0x0201);
    assert!(small_le < large_le);
}
