//! Construction, raw access, casts and cross-tag conversion.

use core::mem::size_of;
use simple_endian::u64be;
use simple_endian::BigEndian;
use simple_endian::LittleEndian;
use simple_endian::SpecificEndian;
use simple_endian::target_is_big_endian;

#[test]
fn declare_all() {
    let _a: BigEndian<i16, i16> = 0xfe.into();
    let _a: LittleEndian<i16, i16> = 0xfe.into();
    let _a: BigEndian<u16, u16> = 0xfe.into();
    let _a: LittleEndian<u16, u16> = 0xfe.into();

    let _a: BigEndian<i32, i32> = 0xfe.into();
    let _a: LittleEndian<i32, i32> = 0xfe.into();
    let _a: BigEndian<u32, u32> = 0xfe.into();
    let _a: LittleEndian<u32, u32> = 0xfe.into();

    let _a: BigEndian<i64, i64> = 0xfe.into();
    let _a: LittleEndian<i64, i64> = 0xfe.into();
    let _a: BigEndian<u64, u64> = 0xfe.into();
    let _a: LittleEndian<u64, u64> = 0xfe.into();

    let _a: BigEndian<i128, i128> = 0xfe.into();
    let _a: LittleEndian<i128, i128> = 0xfe.into();
    let _a: BigEndian<u128, u128> = 0xfe.into();
    let _a: LittleEndian<u128, u128> = 0xfe.into();
}

struct Foo(
    BigEndian<i16, i16>,
    LittleEndian<i16, i16>,
    BigEndian<u16, u16>,
    LittleEndian<u16, u16>,
    BigEndian<i32, i32>,
    LittleEndian<i32, i32>,
    BigEndian<u32, u32>,
    LittleEndian<u32, u32>,
    BigEndian<i64, i64>,
    LittleEndian<i64, i64>,
    BigEndian<u64, u64>,
    LittleEndian<u64, u64>,
    BigEndian<i128, i128>,
    LittleEndian<i128, i128>,
    BigEndian<u128, u128>,
    LittleEndian<u128, u128>,
);

#[test]
fn make_struct() {
    let _foo = Foo(
        0.into(),
        1.into(),
        2.into(),
        3.into(),
        4.into(),
        5.into(),
        6.into(),
        7.into(),
        8.into(),
        9.into(),
        10.into(),
        11.into(),
        12.into(),
        13.into(),
        14.into(),
        15.into(),
    );
}

#[test]
fn store_be() {
    let be: BigEndian<u64, u64> = 0xfe.into();
    if target_is_big_endian() {
        assert_eq!(be.to_bits(), 0xfe);
    } else {
        assert_eq!(be.to_bits(), 0xfe00000000000000);
    }
}

#[test]
fn same_size() {
    assert_eq!(size_of::<u64be>(), size_of::<u64>());
}

#[test]
fn store_le() {
    let le: LittleEndian<u64, u64> = 0xfe.into();
    if target_is_big_endian() {
        assert_eq!(le.to_bits(), 0xfe00000000000000);
    } else {
        assert_eq!(le.to_bits(), 0xfe);
    }
}

#[test]
fn cast() {
    let be = BigEndian::<u64, u64>::from(12345);
    let ne: u64 = be.into();
    assert_eq!(ne, 12345);
}

#[test]
fn convert_back() {
    let be = BigEndian::<u64, u64>::from(12345);
    println!("{}", u64::from(be));
}

#[test]
fn convert_to_native() {
    let be = BigEndian::from(0xfe);
    println!("{:x}, {:x}", be.to_bits(), be.to_native());
    assert_eq!(0xfe, be.to_native());
}

#[test]
fn inferred_type() {
    let mut be1 = BigEndian::from(1234);
    be1 = be1 & BigEndian::from(5678);
    println!("{} {} {}", be1.format_dec(), be1.to_bits(), be1.to_native());
    assert_eq!(be1, 1026.into());
}

#[test]
fn inferred_type_bigger() {
    let mut be1 = BigEndian::from(0x0feeddcc);
    be1 = be1 & BigEndian::from(0xff00);
    println!("{} {} {}", be1.format_dec(), be1.to_bits(), be1.to_native());
    assert_eq!(be1, 0xdd00.into());
}

#[test]
fn mixed_endian_big() {
    let be = BigEndian::from(100);
    let le = LittleEndian::from(200);
    let me = be + le.into();
    assert_eq!(me, 300.into());
}

#[test]
fn mixed_endian_little() {
    let be = BigEndian::from(100);
    let le = LittleEndian::from(200);
    let me = le + be.into();
    assert_eq!(me, 300.into());
}

#[derive(Copy, Clone, Debug)]
enum EndianAwareExample {
    BigEndianFunction(u64),
    LittleEndianFunction(u64),
}

impl SpecificEndian<EndianAwareExample> for EndianAwareExample {
    // The ghost items of the trait survive in the compiled crate as ordinary
    // trait items; runtime code never calls them, so the specification
    // mirrors the executable conversions and the lemmas are empty.
    fn spec_to_big(self) -> Self {
        self.to_big_endian()
    }

    fn spec_to_little(self) -> Self {
        self.to_little_endian()
    }

    fn spec_from_big(bits: Self) -> Self {
        Self::from_big_endian(bits)
    }

    fn spec_from_little(bits: Self) -> Self {
        Self::from_little_endian(bits)
    }

    fn lemma_round_trip_big(self) {}

    fn lemma_round_trip_little(self) {}

    fn to_big_endian(&self) -> Self {
        match self {
            EndianAwareExample::BigEndianFunction(_) => *self,
            EndianAwareExample::LittleEndianFunction(v) => {
                EndianAwareExample::BigEndianFunction(v.to_big_endian())
            }
        }
    }

    fn to_little_endian(&self) -> Self {
        match self {
            EndianAwareExample::LittleEndianFunction(_0) => *self,
            EndianAwareExample::BigEndianFunction(v) => {
                EndianAwareExample::BigEndianFunction(v.to_little_endian())
            }
        }
    }

    fn from_big_endian(value: Self) -> Self {
        match value {
            EndianAwareExample::BigEndianFunction(_0) => value,
            EndianAwareExample::LittleEndianFunction(v) => {
                EndianAwareExample::BigEndianFunction(v.to_big_endian())
            }
        }
    }

    fn from_little_endian(value: Self) -> Self {
        match value {
            EndianAwareExample::LittleEndianFunction(_) => value,
            EndianAwareExample::BigEndianFunction(v) => {
                EndianAwareExample::BigEndianFunction(v.to_little_endian())
            }
        }
    }
}

#[test]
fn custom_type() {
    let foo: BigEndian<EndianAwareExample> =
        EndianAwareExample::LittleEndianFunction(0xf0).into();
    #[allow(unused_assignments)]
    let mut value = 0;
    match foo.to_native() {
        EndianAwareExample::BigEndianFunction(v) => {
            println!("be: {:x}", v);
            value = v
        }
        EndianAwareExample::LittleEndianFunction(v) => {
            println!("le: {:x}", v);
            value = 0
        }
    }
    assert_eq!(value, 0x0f000000000000000);
}

#[test]
fn wrapper_size_equals_carrier_size() {
    assert_eq!(size_of::<BigEndian<u16, u16>>(), size_of::<u16>());
    assert_eq!(size_of::<LittleEndian<u32, u32>>(), size_of::<u32>());
    assert_eq!(size_of::<BigEndian<i128, i128>>(), size_of::<i128>());
    assert_eq!(size_of::<LittleEndian<u64, u64>>(), size_of::<u64>());
}

#[test]
fn default_is_zero_bits() {
    let d: BigEndian<u64, u64> = Default::default();
    assert_eq!(d.to_bits(), 0);
    let e: LittleEndian<i32, i32> = Default::default();
    assert_eq!(e.to_bits(), 0);
}
