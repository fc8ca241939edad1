//! Verified rendering of integers as decimal and hexadecimal text, used by
//! the string forms of addresses, timestamps and records.

use vstd::prelude::*;
use vstd::string::StringExecFns;

verus! {

/// The lowercase digit character for one value below sixteen.
pub open spec fn spec_digit(n: int) -> char
    recommends
        0 <= n < 16,
{
    if n == 0 {
        '0'
    } else if n == 1 {
        '1'
    } else if n == 2 {
        '2'
    } else if n == 3 {
        '3'
    } else if n == 4 {
        '4'
    } else if n == 5 {
        '5'
    } else if n == 6 {
        '6'
    } else if n == 7 {
        '7'
    } else if n == 8 {
        '8'
    } else if n == 9 {
        '9'
    } else if n == 10 {
        'a'
    } else if n == 11 {
        'b'
    } else if n == 12 {
        'c'
    } else if n == 13 {
        'd'
    } else if n == 14 {
        'e'
    } else {
        'f'
    }
}

/// The decimal rendering of a nonnegative integer, most significant digit
/// first, with no leading zero except for the number zero itself.
pub open spec fn spec_dec(n: int) -> Seq<char>
    recommends
        n >= 0,
    decreases n,
{
    if n < 10 {
        seq![spec_digit(n)]
    } else {
        spec_dec(n / 10) + seq![spec_digit(n % 10)]
    }
}

/// The decimal rendering of a signed octet, with a leading minus sign when
/// the value is negative.
pub open spec fn spec_dec_i8(n: int) -> Seq<char>
    recommends
        -128 <= n < 128,
{
    if n >= 0 {
        spec_dec(n)
    } else {
        seq!['-'] + spec_dec(-n)
    }
}

/// The single-character string for one digit value below sixteen.
pub fn digit_str(n: u8) -> (r: &'static str)
    requires
        n < 16,
    ensures
        r@ == seq![spec_digit(n as int)],
{
    proof {
        reveal_strlit("0");
        reveal_strlit("1");
        reveal_strlit("2");
        reveal_strlit("3");
        reveal_strlit("4");
        reveal_strlit("5");
        reveal_strlit("6");
        reveal_strlit("7");
        reveal_strlit("8");
        reveal_strlit("9");
        reveal_strlit("a");
        reveal_strlit("b");
        reveal_strlit("c");
        reveal_strlit("d");
        reveal_strlit("e");
        reveal_strlit("f");
        assert("0"@ =~= seq![spec_digit(0)]);
        assert("1"@ =~= seq![spec_digit(1)]);
        assert("2"@ =~= seq![spec_digit(2)]);
        assert("3"@ =~= seq![spec_digit(3)]);
        assert("4"@ =~= seq![spec_digit(4)]);
        assert("5"@ =~= seq![spec_digit(5)]);
        assert("6"@ =~= seq![spec_digit(6)]);
        assert("7"@ =~= seq![spec_digit(7)]);
        assert("8"@ =~= seq![spec_digit(8)]);
        assert("9"@ =~= seq![spec_digit(9)]);
        assert("a"@ =~= seq![spec_digit(10)]);
        assert("b"@ =~= seq![spec_digit(11)]);
        assert("c"@ =~= seq![spec_digit(12)]);
        assert("d"@ =~= seq![spec_digit(13)]);
        assert("e"@ =~= seq![spec_digit(14)]);
        assert("f"@ =~= seq![spec_digit(15)]);
    }
    if n == 0 {
        "0"
    } else if n == 1 {
        "1"
    } else if n == 2 {
        "2"
    } else if n == 3 {
        "3"
    } else if n == 4 {
        "4"
    } else if n == 5 {
        "5"
    } else if n == 6 {
        "6"
    } else if n == 7 {
        "7"
    } else if n == 8 {
        "8"
    } else if n == 9 {
        "9"
    } else if n == 10 {
        "a"
    } else if n == 11 {
        "b"
    } else if n == 12 {
        "c"
    } else if n == 13 {
        "d"
    } else if n == 14 {
        "e"
    } else {
        "f"
    }
}

/// Renders an unsigned value in decimal.
pub fn u64_dec_string(n: u64) -> (r: String)
    ensures
        r@ == spec_dec(n as int),
    decreases n,
{
    if n < 10 {
        String::from_str(digit_str(n as u8))
    } else {
        let mut s = u64_dec_string(n / 10);
        s.append(digit_str((n % 10) as u8));
        s
    }
}

/// Renders a signed octet in decimal, minus sign included.
pub fn i8_dec_string(n: i8) -> (r: String)
    ensures
        r@ == spec_dec_i8(n as int),
{
    if n >= 0 {
        u64_dec_string(n as u64)
    } else {
        let m: i64 = -(n as i64);
        proof {
            reveal_strlit("-");
            assert("-"@ =~= seq!['-']);
        }
        let mut s = String::from_str("-");
        let digits = u64_dec_string(m as u64);
        s.append(digits.as_str());
        s
    }
}

/// The two lowercase hex digits of one byte, high nibble first.
pub open spec fn spec_hex_pair(b: u8) -> Seq<char> {
    seq![spec_digit(b as int / 16), spec_digit(b as int % 16)]
}

/// Renders one byte as two lowercase hex digits.
pub fn hex_pair_string(b: u8) -> (r: String)
    ensures
        r@ == spec_hex_pair(b),
{
    let mut s = String::from_str(digit_str(b / 16));
    s.append(digit_str(b % 16));
    proof {
        assert(s@ =~= spec_hex_pair(b));
    }
    s
}

} // verus!
