//! Endian-tagged wrapper types.
//!
//! A value can be declared to live in a specific byte order — big-endian or
//! little-endian — independent of the byte order of the machine the program
//! runs on.  The conversion capability is the `SpecificEndian` trait; the
//! two wrapper types `BigEndian` and `LittleEndian` hold only the encoded
//! bit pattern and decode it back to a native value on demand.

mod bitwise_ops;
mod byte_order;
mod comparison_ops;
mod formatting_ops;
mod laws;
mod math_ops;
mod native_casts;
mod neg_ops;
mod primitives;
mod shorthand_types;
mod specific_endian;

pub use byte_order::lemma_swap_bytes_i128_involution;
pub use byte_order::lemma_swap_bytes_i16_involution;
pub use byte_order::lemma_swap_bytes_i32_involution;
pub use byte_order::lemma_swap_bytes_i64_involution;
pub use byte_order::lemma_swap_bytes_isize_involution;
pub use byte_order::lemma_swap_bytes_u128_involution;
pub use byte_order::lemma_swap_bytes_u16_involution;
pub use byte_order::lemma_swap_bytes_u32_involution;
pub use byte_order::lemma_swap_bytes_u64_involution;
pub use byte_order::lemma_swap_bytes_usize_involution;
pub use byte_order::spec_swap_bytes_i128;
pub use byte_order::spec_swap_bytes_i16;
pub use byte_order::spec_swap_bytes_i32;
pub use byte_order::spec_swap_bytes_i64;
pub use byte_order::spec_swap_bytes_isize;
pub use byte_order::spec_swap_bytes_u128;
pub use byte_order::spec_swap_bytes_u16;
pub use byte_order::spec_swap_bytes_u32;
pub use byte_order::spec_swap_bytes_u64;
pub use byte_order::spec_swap_bytes_usize;
pub use byte_order::swap_bytes_i128;
pub use byte_order::swap_bytes_i16;
pub use byte_order::swap_bytes_i32;
pub use byte_order::swap_bytes_i64;
pub use byte_order::swap_bytes_isize;
pub use byte_order::swap_bytes_u128;
pub use byte_order::swap_bytes_u16;
pub use byte_order::swap_bytes_u32;
pub use byte_order::swap_bytes_u64;
pub use byte_order::swap_bytes_usize;
pub use byte_order::target_big;
pub use byte_order::target_is_big_endian;
pub use formatting_ops::format_radix_u128;
pub use formatting_ops::spec_digit_char;
pub use formatting_ops::spec_digits;
pub use formatting_ops::spec_format_dec;
pub use formatting_ops::spec_format_radix;
pub use formatting_ops::spec_radix;
pub use formatting_ops::FormatNative;
pub use laws::lemma_add_correct;
pub use laws::lemma_add_correct_little;
pub use laws::lemma_div_correct_little;
pub use laws::lemma_mul_correct_little;
pub use laws::lemma_neg_correct_little;
pub use laws::lemma_sub_correct_little;
pub use laws::lemma_cross_tag_preserves_native;
pub use laws::lemma_div_correct;
pub use laws::lemma_mixed_endian_add;
pub use laws::lemma_mul_correct;
pub use laws::lemma_neg_correct;
pub use laws::lemma_platform_order;
pub use laws::lemma_round_trip;
pub use laws::lemma_semantic_equality;
pub use laws::lemma_semantic_equality_u64;
pub use laws::lemma_sub_correct;
pub use specific_endian::BigEndian;
pub use specific_endian::LittleEndian;
pub use specific_endian::SpecificEndian;
pub use shorthand_types::i128be;
pub use shorthand_types::isizebe;
pub use shorthand_types::isizele;
pub use shorthand_types::usizebe;
pub use shorthand_types::usizele;
pub use shorthand_types::i128le;
pub use shorthand_types::i16be;
pub use shorthand_types::i16le;
pub use shorthand_types::i32be;
pub use shorthand_types::i32le;
pub use shorthand_types::i64be;
pub use shorthand_types::i64le;
pub use shorthand_types::u128be;
pub use shorthand_types::u128le;
pub use shorthand_types::u16be;
pub use shorthand_types::u16le;
pub use shorthand_types::u32be;
pub use shorthand_types::u32le;
pub use shorthand_types::u64be;
pub use shorthand_types::u64le;
