//! Verified number-to-text rendering: decimal digits, zero padding and
//! fixed-width uppercase hex, used by the CSV tracer export, the run-log
//! schema messages and the run identifier.

use vstd::prelude::*;

verus! {

/// The decimal digit character for `d` (only `d < 10` is meaningful).
pub open spec fn spec_digit_char(d: nat) -> char {
    if d == 0 {
        '0'
    } else if d == 1 {
        '1'
    } else if d == 2 {
        '2'
    } else if d == 3 {
        '3'
    } else if d == 4 {
        '4'
    } else if d == 5 {
        '5'
    } else if d == 6 {
        '6'
    } else if d == 7 {
        '7'
    } else if d == 8 {
        '8'
    } else {
        '9'
    }
}

/// The decimal rendering of `n`, most significant digit first, without
/// leading zeros (`0` renders as "0").
pub open spec fn spec_u64_string(n: nat) -> Seq<char>
    decreases n,
{
    if n < 10 {
        seq![spec_digit_char(n)]
    } else {
        spec_u64_string(n / 10).push(spec_digit_char(n % 10))
    }
}

/// `s` left-padded with '0' to width `w` (unchanged if already as wide).
pub open spec fn spec_zero_pad(s: Seq<char>, w: nat) -> Seq<char> {
    if s.len() >= w {
        s
    } else {
        Seq::new((w - s.len()) as nat, |i: int| '0') + s
    }
}

/// The uppercase hex digit character for `d` (only `d < 16` is meaningful).
pub open spec fn spec_hex_char(d: nat) -> char {
    if d < 10 {
        spec_digit_char(d)
    } else if d == 10 {
        'A'
    } else if d == 11 {
        'B'
    } else if d == 12 {
        'C'
    } else if d == 13 {
        'D'
    } else if d == 14 {
        'E'
    } else {
        'F'
    }
}

/// Four uppercase hex digits of a 16-bit value, most significant first.
pub open spec fn spec_u16_hex4(n: u16) -> Seq<char> {
    seq![
        spec_hex_char(((n >> 12) & 0xf) as nat),
        spec_hex_char(((n >> 8) & 0xf) as nat),
        spec_hex_char(((n >> 4) & 0xf) as nat),
        spec_hex_char((n & 0xf) as nat),
    ]
}

/// One decimal digit as a string slice.
fn digit_str(d: u64) -> (r: &'static str)
    requires
        d < 10,
    ensures
        r@ == seq![spec_digit_char(d as nat)],
{
    proof {
        reveal_strlit("0");
        reveal_strlit("1");
        reveal_strlit("2");
        reveal_strlit("3");
        reveal_strlit("4");
        reveal_strlit("5");
        reveal_strlit("6");
        reveal_strlit("7");
        reveal_strlit("8");
        reveal_strlit("9");
    }
    match d {
        0 => "0",
        1 => "1",
        2 => "2",
        3 => "3",
        4 => "4",
        5 => "5",
        6 => "6",
        7 => "7",
        8 => "8",
        _ => "9",
    }
}

/// One uppercase hex digit as a string slice.
fn hex_digit_str(d: u16) -> (r: &'static str)
    requires
        d < 16,
    ensures
        r@ == seq![spec_hex_char(d as nat)],
{
    proof {
        reveal_strlit("A");
        reveal_strlit("B");
        reveal_strlit("C");
        reveal_strlit("D");
        reveal_strlit("E");
        reveal_strlit("F");
    }
    if d < 10 {
        digit_str(d as u64)
    } else {
        match d {
            10 => "A",
            11 => "B",
            12 => "C",
            13 => "D",
            14 => "E",
            _ => "F",
        }
    }
}

/// Renders `n` in decimal.
pub fn u64_to_string(n: u64) -> (s: String)
    ensures
        s@ == spec_u64_string(n as nat),
    decreases n,
{
    if n < 10 {
        String::from_str(digit_str(n))
    } else {
        let mut s = u64_to_string(n / 10);
        s.append(digit_str(n % 10));
        proof {
            assert(spec_u64_string(n as nat) =~= spec_u64_string((n as nat) / 10) + seq![
                spec_digit_char((n as nat) % 10),
            ]);
        }
        s
    }
}

/// Renders `n` in decimal, left-padded with zeros to `width` characters.
pub fn zero_padded_u64(n: u64, width: usize) -> (s: String)
    ensures
        s@ == spec_zero_pad(spec_u64_string(n as nat), width as nat),
{
    let digits = u64_to_string(n);
    let dl = digits.as_str().unicode_len();
    if dl >= width {
        digits
    } else {
        let mut s = String::new();
        let mut i = dl;
        proof {
            reveal_strlit("0");
            assert(s@ =~= Seq::new((i - dl) as nat, |j: int| '0'));
        }
        while i < width
            invariant
                dl <= i <= width,
                s@ == Seq::new((i - dl) as nat, |j: int| '0'),
            decreases width - i,
        {
            s.append("0");
            proof {
                reveal_strlit("0");
                assert(s@ =~= Seq::new((i + 1 - dl) as nat, |j: int| '0'));
            }
            i = i + 1;
        }
        s.append(digits.as_str());
        s
    }
}

/// Renders a 16-bit value as four uppercase hex digits.
pub fn u16_hex4(n: u16) -> (s: String)
    ensures
        s@ == spec_u16_hex4(n),
{
    proof {
        assert(((n >> 12) & 0xf) < 16 && ((n >> 8) & 0xf) < 16 && ((n >> 4) & 0xf) < 16 && (n
            & 0xf) < 16) by (bit_vector);
    }
    let mut s = String::from_str(hex_digit_str((n >> 12) & 0xf));
    s.append(hex_digit_str((n >> 8) & 0xf));
    s.append(hex_digit_str((n >> 4) & 0xf));
    s.append(hex_digit_str(n & 0xf));
    proof {
        assert(s@ =~= spec_u16_hex4(n));
    }
    s
}

} // verus!
