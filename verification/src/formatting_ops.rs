//! Rendering wrapper values as text.
//!
//! Formatting always decodes to the native value first; the stored raw
//! pattern is never shown.  Decimal rendering shows a sign and the absolute
//! value; hexadecimal, octal and binary rendering show the value's bits
//! read as an unsigned number, the way the native types render themselves
//! in those bases.

use vstd::prelude::*;
use vstd::arithmetic::div_mod::lemma_div_decreases;
use vstd::string::StringExecFns;
use crate::specific_endian::BigEndian;
use crate::specific_endian::LittleEndian;
use crate::specific_endian::SpecificEndian;

verus! {

/// The character for the digit `d`, for any base up to sixteen.
pub open spec fn spec_digit_char(d: nat, upper: bool) -> char {
    if d == 0 {
        '0'
    } else if d == 1 {
        '1'
    } else if d == 2 {
        '2'
    } else if d == 3 {
        '3'
    } else if d == 4 {
        '4'
    } else if d == 5 {
        '5'
    } else if d == 6 {
        '6'
    } else if d == 7 {
        '7'
    } else if d == 8 {
        '8'
    } else if d == 9 {
        '9'
    } else if d == 10 {
        if upper {
            'A'
        } else {
            'a'
        }
    } else if d == 11 {
        if upper {
            'B'
        } else {
            'b'
        }
    } else if d == 12 {
        if upper {
            'C'
        } else {
            'c'
        }
    } else if d == 13 {
        if upper {
            'D'
        } else {
            'd'
        }
    } else if d == 14 {
        if upper {
            'E'
        } else {
            'e'
        }
    } else if d == 15 {
        if upper {
            'F'
        } else {
            'f'
        }
    } else {
        '0'
    }
}

/// The digit characters of `n` in the given base, most significant first;
/// empty when `n` is zero.
pub open spec fn spec_digits(n: nat, base: nat, upper: bool) -> Seq<char>
    decreases n,
    via spec_digits_decreases
{
    if n == 0 || base < 2 {
        Seq::empty()
    } else {
        spec_digits(n / base, base, upper).push(spec_digit_char(n % base, upper))
    }
}

#[via_fn]
proof fn spec_digits_decreases(n: nat, base: nat, upper: bool) {
    if n > 0 && base >= 2 {
        lemma_div_decreases(n as int, base as int);
    }
}

/// The rendering of `n` in the given base: its digits, or a single zero
/// digit when `n` is zero.
pub open spec fn spec_radix(n: nat, base: nat, upper: bool) -> Seq<char> {
    if n == 0 {
        seq!['0']
    } else {
        spec_digits(n, base, upper)
    }
}

fn digit_str(d: u128, upper: bool) -> (r: &'static str)
    requires
        d < 16,
    ensures
        r@ == seq![spec_digit_char(d as nat, upper)],
{
    if d == 0 {
        proof {
            reveal_strlit("0");
            assert("0"@ =~= seq!['0']);
        }
        "0"
    } else if d == 1 {
        proof {
            reveal_strlit("1");
            assert("1"@ =~= seq!['1']);
        }
        "1"
    } else if d == 2 {
        proof {
            reveal_strlit("2");
            assert("2"@ =~= seq!['2']);
        }
        "2"
    } else if d == 3 {
        proof {
            reveal_strlit("3");
            assert("3"@ =~= seq!['3']);
        }
        "3"
    } else if d == 4 {
        proof {
            reveal_strlit("4");
            assert("4"@ =~= seq!['4']);
        }
        "4"
    } else if d == 5 {
        proof {
            reveal_strlit("5");
            assert("5"@ =~= seq!['5']);
        }
        "5"
    } else if d == 6 {
        proof {
            reveal_strlit("6");
            assert("6"@ =~= seq!['6']);
        }
        "6"
    } else if d == 7 {
        proof {
            reveal_strlit("7");
            assert("7"@ =~= seq!['7']);
        }
        "7"
    } else if d == 8 {
        proof {
            reveal_strlit("8");
            assert("8"@ =~= seq!['8']);
        }
        "8"
    } else if d == 9 {
        proof {
            reveal_strlit("9");
            assert("9"@ =~= seq!['9']);
        }
        "9"
    } else if d == 10 {
        if upper {
            proof {
                reveal_strlit("A");
                assert("A"@ =~= seq!['A']);
            }
            "A"
        } else {
            proof {
                reveal_strlit("a");
                assert("a"@ =~= seq!['a']);
            }
            "a"
        }
    } else if d == 11 {
        if upper {
            proof {
                reveal_strlit("B");
                assert("B"@ =~= seq!['B']);
            }
            "B"
        } else {
            proof {
                reveal_strlit("b");
                assert("b"@ =~= seq!['b']);
            }
            "b"
        }
    } else if d == 12 {
        if upper {
            proof {
                reveal_strlit("C");
                assert("C"@ =~= seq!['C']);
            }
            "C"
        } else {
            proof {
                reveal_strlit("c");
                assert("c"@ =~= seq!['c']);
            }
            "c"
        }
    } else if d == 13 {
        if upper {
            proof {
                reveal_strlit("D");
                assert("D"@ =~= seq!['D']);
            }
            "D"
        } else {
            proof {
                reveal_strlit("d");
                assert("d"@ =~= seq!['d']);
            }
            "d"
        }
    } else if d == 14 {
        if upper {
            proof {
                reveal_strlit("E");
                assert("E"@ =~= seq!['E']);
            }
            "E"
        } else {
            proof {
                reveal_strlit("e");
                assert("e"@ =~= seq!['e']);
            }
            "e"
        }
    } else {
        if upper {
            proof {
                reveal_strlit("F");
                assert("F"@ =~= seq!['F']);
            }
            "F"
        } else {
            proof {
                reveal_strlit("f");
                assert("f"@ =~= seq!['f']);
            }
            "f"
        }
    }
}

fn push_digits(s: &mut String, n: u128, base: u128, upper: bool)
    requires
        2 <= base <= 16,
    ensures
        final(s)@ == old(s)@ + spec_digits(n as nat, base as nat, upper),
    decreases n,
{
    if n > 0 {
        let q = n / base;
        let d = n % base;
        proof {
            lemma_div_decreases(n as int, base as int);
        }
        push_digits(s, q, base, upper);
        s.append(digit_str(d, upper));
        proof {
            assert((old(s)@ + spec_digits(q as nat, base as nat, upper)) + seq![
                spec_digit_char(d as nat, upper),
            ] =~= old(s)@ + spec_digits(n as nat, base as nat, upper));
        }
    } else {
        proof {
            assert(old(s)@ + spec_digits(0, base as nat, upper) =~= old(s)@);
        }
    }
}

/// Renders `n` in the given base, the way the unsigned native types render
/// themselves: no sign, no leading zeros, a lone zero digit for zero.
pub fn format_radix_u128(n: u128, base: u128, upper: bool) -> (s: String)
    requires
        2 <= base <= 16,
    ensures
        s@ == spec_radix(n as nat, base as nat, upper),
{
    let mut s = String::new();
    if n == 0 {
        proof {
            reveal_strlit("0");
            assert("0"@ =~= seq!['0']);
        }
        s.append("0");
        proof {
            assert(s@ =~= seq!['0']);
        }
    } else {
        push_digits(&mut s, n, base, upper);
        proof {
            assert(s@ =~= spec_digits(n as nat, base as nat, upper));
        }
    }
    s
}

/// What radix formatting needs of a native value: its sign, its absolute
/// value, and its bits read as an unsigned number — the two's complement
/// pattern that the signed native types show in hexadecimal, octal and
/// binary.
pub trait FormatNative: Copy {
    /// Whether the value is below zero.
    spec fn spec_is_negative(self) -> bool;

    /// The absolute value.
    spec fn spec_abs(self) -> nat;

    /// The bits of the value read as an unsigned number.
    spec fn spec_unsigned_bits(self) -> nat;

    fn is_negative(&self) -> (r: bool)
        ensures
            r == self.spec_is_negative(),
    ;

    fn abs_u128(&self) -> (r: u128)
        ensures
            r as nat == self.spec_abs(),
    ;

    fn unsigned_bits_u128(&self) -> (r: u128)
        ensures
            r as nat == self.spec_unsigned_bits(),
    ;
}

/// The decimal rendering of a native value: a minus sign when it is
/// negative, then the digits of its absolute value.
pub open spec fn spec_format_dec<V: FormatNative>(v: V) -> Seq<char> {
    if v.spec_is_negative() {
        seq!['-'] + spec_radix(v.spec_abs(), 10, false)
    } else {
        spec_radix(v.spec_abs(), 10, false)
    }
}

/// The rendering of a native value's bits in the given base.
pub open spec fn spec_format_radix<V: FormatNative>(v: V, base: nat, upper: bool) -> Seq<char> {
    spec_radix(v.spec_unsigned_bits(), base, upper)
}

fn format_value_dec<V: FormatNative>(n: V) -> (s: String)
    ensures
        s@ == spec_format_dec(n),
{
    let mag = format_radix_u128(n.abs_u128(), 10, false);
    if n.is_negative() {
        let mut s = String::new();
        proof {
            reveal_strlit("-");
            assert("-"@ =~= seq!['-']);
        }
        s.append("-");
        s.append(mag.as_str());
        proof {
            assert((Seq::<char>::empty() + seq!['-']) + mag@ =~= seq!['-'] + mag@);
        }
        s
    } else {
        mag
    }
}

fn format_value_radix<V: FormatNative>(n: V, base: u128, upper: bool) -> (s: String)
    requires
        2 <= base <= 16,
    ensures
        s@ == spec_format_radix(n, base as nat, upper),
{
    format_radix_u128(n.unsigned_bits_u128(), base, upper)
}

impl<V: SpecificEndian<B> + FormatNative, B: Copy> BigEndian<V, B> {
    /// The decoded value in decimal.
    pub fn format_dec(&self) -> (s: String)
        ensures
            s@ == spec_format_dec(self.spec_native()),
    {
        format_value_dec(self.to_native())
    }

    /// The decoded value's bits in lower-case hexadecimal.
    pub fn format_hex_lower(&self) -> (s: String)
        ensures
            s@ == spec_format_radix(self.spec_native(), 16, false),
    {
        format_value_radix(self.to_native(), 16, false)
    }

    /// The decoded value's bits in upper-case hexadecimal.
    pub fn format_hex_upper(&self) -> (s: String)
        ensures
            s@ == spec_format_radix(self.spec_native(), 16, true),
    {
        format_value_radix(self.to_native(), 16, true)
    }

    /// The decoded value's bits in octal.
    pub fn format_octal(&self) -> (s: String)
        ensures
            s@ == spec_format_radix(self.spec_native(), 8, false),
    {
        format_value_radix(self.to_native(), 8, false)
    }

    /// The decoded value's bits in binary.
    pub fn format_binary(&self) -> (s: String)
        ensures
            s@ == spec_format_radix(self.spec_native(), 2, false),
    {
        format_value_radix(self.to_native(), 2, false)
    }
}

impl<V: SpecificEndian<B> + FormatNative, B: Copy> LittleEndian<V, B> {
    /// The decoded value in decimal.
    pub fn format_dec(&self) -> (s: String)
        ensures
            s@ == spec_format_dec(self.spec_native()),
    {
        format_value_dec(self.to_native())
    }

    /// The decoded value's bits in lower-case hexadecimal.
    pub fn format_hex_lower(&self) -> (s: String)
        ensures
            s@ == spec_format_radix(self.spec_native(), 16, false),
    {
        format_value_radix(self.to_native(), 16, false)
    }

    /// The decoded value's bits in upper-case hexadecimal.
    pub fn format_hex_upper(&self) -> (s: String)
        ensures
            s@ == spec_format_radix(self.spec_native(), 16, true),
    {
        format_value_radix(self.to_native(), 16, true)
    }

    /// The decoded value's bits in octal.
    pub fn format_octal(&self) -> (s: String)
        ensures
            s@ == spec_format_radix(self.spec_native(), 8, false),
    {
        format_value_radix(self.to_native(), 8, false)
    }

    /// The decoded value's bits in binary.
    pub fn format_binary(&self) -> (s: String)
        ensures
            s@ == spec_format_radix(self.spec_native(), 2, false),
    {
        format_value_radix(self.to_native(), 2, false)
    }
}

impl FormatNative for u8 {
    open spec fn spec_is_negative(self) -> bool {
        false
    }

    open spec fn spec_abs(self) -> nat {
        self as nat
    }

    open spec fn spec_unsigned_bits(self) -> nat {
        self as nat
    }

    fn is_negative(&self) -> (r: bool) {
        false
    }

    fn abs_u128(&self) -> (r: u128) {
        *self as u128
    }

    fn unsigned_bits_u128(&self) -> (r: u128) {
        *self as u128
    }
}

impl FormatNative for u16 {
    open spec fn spec_is_negative(self) -> bool {
        false
    }

    open spec fn spec_abs(self) -> nat {
        self as nat
    }

    open spec fn spec_unsigned_bits(self) -> nat {
        self as nat
    }

    fn is_negative(&self) -> (r: bool) {
        false
    }

    fn abs_u128(&self) -> (r: u128) {
        *self as u128
    }

    fn unsigned_bits_u128(&self) -> (r: u128) {
        *self as u128
    }
}

impl FormatNative for u32 {
    open spec fn spec_is_negative(self) -> bool {
        false
    }

    open spec fn spec_abs(self) -> nat {
        self as nat
    }

    open spec fn spec_unsigned_bits(self) -> nat {
        self as nat
    }

    fn is_negative(&self) -> (r: bool) {
        false
    }

    fn abs_u128(&self) -> (r: u128) {
        *self as u128
    }

    fn unsigned_bits_u128(&self) -> (r: u128) {
        *self as u128
    }
}

impl FormatNative for u64 {
    open spec fn spec_is_negative(self) -> bool {
        false
    }

    open spec fn spec_abs(self) -> nat {
        self as nat
    }

    open spec fn spec_unsigned_bits(self) -> nat {
        self as nat
    }

    fn is_negative(&self) -> (r: bool) {
        false
    }

    fn abs_u128(&self) -> (r: u128) {
        *self as u128
    }

    fn unsigned_bits_u128(&self) -> (r: u128) {
        *self as u128
    }
}

impl FormatNative for u128 {
    open spec fn spec_is_negative(self) -> bool {
        false
    }

    open spec fn spec_abs(self) -> nat {
        self as nat
    }

    open spec fn spec_unsigned_bits(self) -> nat {
        self as nat
    }

    fn is_negative(&self) -> (r: bool) {
        false
    }

    fn abs_u128(&self) -> (r: u128) {
        *self as u128
    }

    fn unsigned_bits_u128(&self) -> (r: u128) {
        *self as u128
    }
}

impl FormatNative for i8 {
    open spec fn spec_is_negative(self) -> bool {
        self < 0
    }

    open spec fn spec_abs(self) -> nat {
        if self < 0 {
            (-(self as int)) as nat
        } else {
            self as nat
        }
    }

    open spec fn spec_unsigned_bits(self) -> nat {
        if self < 0 {
            (0x100 - self.spec_abs()) as nat
        } else {
            self as nat
        }
    }

    fn is_negative(&self) -> (r: bool) {
        *self < 0
    }

    fn abs_u128(&self) -> (r: u128) {
        if *self >= 0 {
            *self as u128
        } else if *self == i8::MIN {
            0x80
        } else {
            (-*self) as u128
        }
    }

    fn unsigned_bits_u128(&self) -> (r: u128) {
        if *self >= 0 {
            *self as u128
        } else {
            0x100 - self.abs_u128()
        }
    }
}

impl FormatNative for i16 {
    open spec fn spec_is_negative(self) -> bool {
        self < 0
    }

    open spec fn spec_abs(self) -> nat {
        if self < 0 {
            (-(self as int)) as nat
        } else {
            self as nat
        }
    }

    open spec fn spec_unsigned_bits(self) -> nat {
        if self < 0 {
            (0x10000 - self.spec_abs()) as nat
        } else {
            self as nat
        }
    }

    fn is_negative(&self) -> (r: bool) {
        *self < 0
    }

    fn abs_u128(&self) -> (r: u128) {
        if *self >= 0 {
            *self as u128
        } else if *self == i16::MIN {
            0x8000
        } else {
            (-*self) as u128
        }
    }

    fn unsigned_bits_u128(&self) -> (r: u128) {
        if *self >= 0 {
            *self as u128
        } else {
            0x10000 - self.abs_u128()
        }
    }
}

impl FormatNative for i32 {
    open spec fn spec_is_negative(self) -> bool {
        self < 0
    }

    open spec fn spec_abs(self) -> nat {
        if self < 0 {
            (-(self as int)) as nat
        } else {
            self as nat
        }
    }

    open spec fn spec_unsigned_bits(self) -> nat {
        if self < 0 {
            (0x100000000 - self.spec_abs()) as nat
        } else {
            self as nat
        }
    }

    fn is_negative(&self) -> (r: bool) {
        *self < 0
    }

    fn abs_u128(&self) -> (r: u128) {
        if *self >= 0 {
            *self as u128
        } else if *self == i32::MIN {
            0x80000000
        } else {
            (-*self) as u128
        }
    }

    fn unsigned_bits_u128(&self) -> (r: u128) {
        if *self >= 0 {
            *self as u128
        } else {
            0x100000000 - self.abs_u128()
        }
    }
}

impl FormatNative for i64 {
    open spec fn spec_is_negative(self) -> bool {
        self < 0
    }

    open spec fn spec_abs(self) -> nat {
        if self < 0 {
            (-(self as int)) as nat
        } else {
            self as nat
        }
    }

    open spec fn spec_unsigned_bits(self) -> nat {
        if self < 0 {
            (0x10000000000000000 - self.spec_abs()) as nat
        } else {
            self as nat
        }
    }

    fn is_negative(&self) -> (r: bool) {
        *self < 0
    }

    fn abs_u128(&self) -> (r: u128) {
        if *self >= 0 {
            *self as u128
        } else if *self == i64::MIN {
            0x8000000000000000
        } else {
            (-*self) as u128
        }
    }

    fn unsigned_bits_u128(&self) -> (r: u128) {
        if *self >= 0 {
            *self as u128
        } else {
            0x10000000000000000 - self.abs_u128()
        }
    }
}

impl FormatNative for i128 {
    open spec fn spec_is_negative(self) -> bool {
        self < 0
    }

    open spec fn spec_abs(self) -> nat {
        if self < 0 {
            (-(self as int)) as nat
        } else {
            self as nat
        }
    }

    open spec fn spec_unsigned_bits(self) -> nat {
        if self < 0 {
            (0x100000000000000000000000000000000 - self.spec_abs()) as nat
        } else {
            self as nat
        }
    }

    fn is_negative(&self) -> (r: bool) {
        *self < 0
    }

    fn abs_u128(&self) -> (r: u128) {
        if *self >= 0 {
            *self as u128
        } else if *self == i128::MIN {
            0x80000000000000000000000000000000
        } else {
            (-*self) as u128
        }
    }

    fn unsigned_bits_u128(&self) -> (r: u128) {
        if *self >= 0 {
            *self as u128
        } else {
            (u128::MAX - self.abs_u128()) + 1
        }
    }
}

impl FormatNative for usize {
    open spec fn spec_is_negative(self) -> bool {
        false
    }

    open spec fn spec_abs(self) -> nat {
        self as nat
    }

    open spec fn spec_unsigned_bits(self) -> nat {
        self as nat
    }

    fn is_negative(&self) -> (r: bool) {
        false
    }

    fn abs_u128(&self) -> (r: u128) {
        *self as u128
    }

    fn unsigned_bits_u128(&self) -> (r: u128) {
        *self as u128
    }
}

impl FormatNative for isize {
    open spec fn spec_is_negative(self) -> bool {
        self < 0
    }

    open spec fn spec_abs(self) -> nat {
        if self < 0 {
            (-(self as int)) as nat
        } else {
            self as nat
        }
    }

    open spec fn spec_unsigned_bits(self) -> nat {
        if self < 0 {
            if usize::BITS == 64 {
                (0x10000000000000000 - self.spec_abs()) as nat
            } else {
                (0x100000000 - self.spec_abs()) as nat
            }
        } else {
            self as nat
        }
    }

    fn is_negative(&self) -> (r: bool) {
        *self < 0
    }

    fn abs_u128(&self) -> (r: u128) {
        if *self >= 0 {
            *self as u128
        } else if usize::BITS == 64 {
            if *self as i64 == i64::MIN {
                0x8000000000000000
            } else {
                (-(*self as i64)) as u128
            }
        } else {
            if *self as i32 == i32::MIN {
                0x80000000
            } else {
                (-(*self as i32)) as u128
            }
        }
    }

    fn unsigned_bits_u128(&self) -> (r: u128) {
        if *self >= 0 {
            *self as u128
        } else if usize::BITS == 64 {
            0x10000000000000000 - self.abs_u128()
        } else {
            0x100000000 - self.abs_u128()
        }
    }
}

} // verus!
