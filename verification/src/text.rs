//! Decimal and hexadecimal rendering of integers, verified against
//! sequence-of-character specifications.

use vstd::prelude::*;
use vstd::string::StringExecFns;

verus! {

/// The one-character string for a decimal digit.
pub open spec fn spec_digit(d: nat) -> Seq<char> {
    if d == 0 {
        "0"@
    } else if d == 1 {
        "1"@
    } else if d == 2 {
        "2"@
    } else if d == 3 {
        "3"@
    } else if d == 4 {
        "4"@
    } else if d == 5 {
        "5"@
    } else if d == 6 {
        "6"@
    } else if d == 7 {
        "7"@
    } else if d == 8 {
        "8"@
    } else {
        "9"@
    }
}

/// The decimal rendering of a natural number, most significant digit
/// first, with no leading zeros (zero itself renders as "0").
pub open spec fn spec_dec_nat(n: nat) -> Seq<char>
    decreases n,
{
    if n < 10 {
        spec_digit(n)
    } else {
        spec_dec_nat(n / 10) + spec_digit(n % 10)
    }
}

/// The decimal rendering of an integer: a leading '-' for negative values.
pub open spec fn spec_dec_int(n: int) -> Seq<char> {
    if n < 0 {
        "-"@ + spec_dec_nat((-n) as nat)
    } else {
        spec_dec_nat(n as nat)
    }
}

/// The one-character string for a hexadecimal digit, uppercase.
pub open spec fn spec_hex_digit(d: nat) -> Seq<char> {
    if d == 0 {
        "0"@
    } else if d == 1 {
        "1"@
    } else if d == 2 {
        "2"@
    } else if d == 3 {
        "3"@
    } else if d == 4 {
        "4"@
    } else if d == 5 {
        "5"@
    } else if d == 6 {
        "6"@
    } else if d == 7 {
        "7"@
    } else if d == 8 {
        "8"@
    } else if d == 9 {
        "9"@
    } else if d == 10 {
        "A"@
    } else if d == 11 {
        "B"@
    } else if d == 12 {
        "C"@
    } else if d == 13 {
        "D"@
    } else if d == 14 {
        "E"@
    } else {
        "F"@
    }
}

/// Two uppercase hexadecimal characters for a byte value, high nibble first.
pub open spec fn spec_hex_byte(b: nat) -> Seq<char> {
    spec_hex_digit(b / 16) + spec_hex_digit(b % 16)
}

fn digit_str(d: u64) -> (r: &'static str)
    requires
        d < 10,
    ensures
        r@ == spec_digit(d as nat),
{
    match d {
        0 => "0",
        1 => "1",
        2 => "2",
        3 => "3",
        4 => "4",
        5 => "5",
        6 => "6",
        7 => "7",
        8 => "8",
        _ => "9",
    }
}

fn hex_digit_str(d: u8) -> (r: &'static str)
    requires
        d < 16,
    ensures
        r@ == spec_hex_digit(d as nat),
{
    match d {
        0 => "0",
        1 => "1",
        2 => "2",
        3 => "3",
        4 => "4",
        5 => "5",
        6 => "6",
        7 => "7",
        8 => "8",
        9 => "9",
        10 => "A",
        11 => "B",
        12 => "C",
        13 => "D",
        14 => "E",
        _ => "F",
    }
}

/// Appends the decimal rendering of `n` to `out`.
pub fn push_dec_u64(out: &mut String, n: u64)
    ensures
        final(out)@ == old(out)@ + spec_dec_nat(n as nat),
    decreases n,
{
    if n < 10 {
        out.append(digit_str(n));
    } else {
        push_dec_u64(out, n / 10);
        out.append(digit_str(n % 10));
        proof {
            assert(out@ =~= old(out)@ + spec_dec_nat(n as nat));
        }
    }
}

/// Appends the decimal rendering of `n` to `out`, with a sign for
/// negative values.
pub fn push_dec_i32(out: &mut String, n: i32)
    ensures
        final(out)@ == old(out)@ + spec_dec_int(n as int),
{
    if n < 0 {
        out.append("-");
        let mag: u64 = (-(n as i64)) as u64;
        push_dec_u64(out, mag);
        proof {
            assert(out@ =~= old(out)@ + spec_dec_int(n as int));
        }
    } else {
        push_dec_u64(out, n as u64);
    }
}

/// Appends the two-character uppercase hexadecimal rendering of `b` to `out`.
pub fn push_hex_byte(out: &mut String, b: u8)
    ensures
        final(out)@ == old(out)@ + spec_hex_byte(b as nat),
{
    out.append(hex_digit_str(b / 16));
    out.append(hex_digit_str(b % 16));
    proof {
        assert(out@ =~= old(out)@ + spec_hex_byte(b as nat));
    }
}

} // verus!
