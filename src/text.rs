//! Rendering numbers and register names as text, for the assembly-like display of instructions.

use vstd::prelude::*;

verus! {

/// The lower-case hexadecimal digit of `d` (`0 <= d < 16`).
pub open spec fn hex_digit(d: int) -> char {
    if d < 10 {
        (48 + d) as char
    } else {
        (87 + d) as char
    }
}

/// The last `n` hexadecimal digits of `v`, most significant first.
pub open spec fn hex_digits(v: nat, n: nat) -> Seq<char>
    decreases n,
{
    if n == 0 {
        Seq::empty()
    } else {
        hex_digits(v / 16, (n - 1) as nat).push(hex_digit((v % 16) as int))
    }
}

/// `v` as eight hexadecimal digits with a `0x` prefix, as an immediate is displayed. A negative
/// value shows as its 32-bit two's complement.
pub open spec fn hex_imm(v: i32) -> Seq<char> {
    seq!['0', 'x'] + hex_digits(v as u32 as nat, 8)
}

/// The decimal digits of `v` (`0 <= v < 100`).
pub open spec fn dec(v: nat) -> Seq<char> {
    if v < 10 {
        seq![hex_digit(v as int)]
    } else {
        seq![hex_digit((v / 10) as int), hex_digit((v % 10) as int)]
    }
}

/// The assembly name of register `r`: `x` followed by its number.
pub open spec fn reg_name(r: u8) -> Seq<char> {
    seq!['x'] + dec(r as nat)
}

/// The one-character text of the digit `d` (`0 <= d < 16`).
fn digit_str(d: u32) -> (r: &'static str)
    requires
        d < 16,
    ensures
        r@ == seq![hex_digit(d as int)],
{
    proof {
        reveal_strlit("0");
        reveal_strlit("1");
        reveal_strlit("2");
        reveal_strlit("3");
        reveal_strlit("4");
        reveal_strlit("5");
        reveal_strlit("6");
        reveal_strlit("7");
        reveal_strlit("8");
        reveal_strlit("9");
        reveal_strlit("a");
        reveal_strlit("b");
        reveal_strlit("c");
        reveal_strlit("d");
        reveal_strlit("e");
        reveal_strlit("f");
    }
    match d {
        0 => "0",
        1 => "1",
        2 => "2",
        3 => "3",
        4 => "4",
        5 => "5",
        6 => "6",
        7 => "7",
        8 => "8",
        9 => "9",
        10 => "a",
        11 => "b",
        12 => "c",
        13 => "d",
        14 => "e",
        _ => "f",
    }
}

/// Append the last `n` hexadecimal digits of `v`.
fn push_hex_digits(s: &mut String, v: u32, n: u32)
    ensures
        final(s)@ == old(s)@ + hex_digits(v as nat, n as nat),
    decreases n,
{
    if n > 0 {
        push_hex_digits(s, v / 16, n - 1);
        s.append(digit_str(v % 16));
    } else {
        assert(old(s)@ + hex_digits(v as nat, 0) =~= old(s)@);
    }
}

/// Append `v` as an immediate: `0x` and eight hexadecimal digits.
pub fn push_hex_imm(s: &mut String, v: i32)
    ensures
        final(s)@ == old(s)@ + hex_imm(v),
{
    proof {
        reveal_strlit("0x");
    }
    s.append("0x");
    push_hex_digits(s, v as u32, 8);
}

/// Append the decimal digits of `v` (`v < 100`).
pub fn push_dec(s: &mut String, v: u32)
    requires
        v < 100,
    ensures
        final(s)@ == old(s)@ + dec(v as nat),
{
    if v < 10 {
        s.append(digit_str(v));
    } else {
        s.append(digit_str(v / 10));
        s.append(digit_str(v % 10));
    }
}

/// Append the name of register `r` (`r < 32`).
pub fn push_reg(s: &mut String, r: u8)
    requires
        r < 32,
    ensures
        final(s)@ == old(s)@ + reg_name(r),
{
    proof {
        reveal_strlit("x");
    }
    s.append("x");
    push_dec(s, r as u32);
}

} // verus!
