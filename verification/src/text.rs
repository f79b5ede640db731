//! Building strings: decimal and hexadecimal numbers.

use vstd::prelude::*;

verus! {

/// The upper-case hexadecimal digit of a value below 16.
pub open spec fn hex_digit_upper(n: u8) -> char {
    if n < 10 {
        (48 + n) as char
    } else {
        (55 + n) as char
    }
}

/// The upper-case hexadecimal digit of a value below 16.
pub fn hex_digit(n: u8) -> (r: char)
    requires
        n < 16,
    ensures
        r == hex_digit_upper(n),
{
    if n < 10 {
        (48u8 + n) as char
    } else {
        (55u8 + n) as char
    }
}

/// Nibble `i` of `w`, counted from the most significant (0) to the least
/// significant (7).
pub open spec fn nibble(w: u32, i: int) -> u8 {
    ((w >> ((28 - 4 * i) as u32)) & 0xF) as u8
}

/// The eight upper-case hexadecimal digits of `w`.
pub open spec fn hex8_chars(w: u32) -> Seq<char> {
    Seq::new(8, |i: int| hex_digit_upper(nibble(w, i)))
}

/// `0x` followed by the eight upper-case hexadecimal digits of `w`.
pub open spec fn hex_word_chars(w: u32) -> Seq<char> {
    seq!['0', 'x'] + hex8_chars(w)
}

/// `0x` followed by the two upper-case hexadecimal digits of `b`.
pub open spec fn hex_byte_chars(b: u8) -> Seq<char> {
    seq!['0', 'x', hex_digit_upper(b / 16), hex_digit_upper(b % 16)]
}

/// The decimal digit of a value below 10.
pub open spec fn decimal_digit(n: int) -> char {
    (48 + n) as char
}

/// The decimal digits of `n`, without leading zeros (`0` for zero).
pub open spec fn decimal_chars(n: nat) -> Seq<char>
    decreases n,
{
    if n < 10 {
        seq![decimal_digit(n as int)]
    } else {
        decimal_chars(n / 10).push(decimal_digit((n % 10) as int))
    }
}

/// Appends `c` to `s`.
///
/// Calls `String::push`, which std documents as appending the given char
/// to the end of the string; the contract states exactly that.
#[verifier::external_body]
pub fn push_char(s: &mut String, c: char)
    ensures
        final(s)@ == old(s)@.push(c),
{
    s.push(c);
}

/// Appends `t` to `s`.
///
/// Calls `String::push_str`, which std documents as appending the given
/// string slice to the end of the string; the contract states exactly that.
#[verifier::external_body]
pub fn push_str(s: &mut String, t: &str)
    ensures
        final(s)@ == old(s)@ + t@,
{
    s.push_str(t);
}

/// Appends the eight upper-case hexadecimal digits of `w` to `s`.
pub fn push_hex8(s: &mut String, w: u32)
    ensures
        final(s)@ == old(s)@ + hex8_chars(w),
{
    let ghost start = s@;
    let mut i: u32 = 0;
    while i < 8
        invariant
            i <= 8,
            s@ =~= start + Seq::new(i as nat, |j: int| hex_digit_upper(nibble(w, j))),
        decreases 8 - i,
    {
        let shift: u32 = 28 - 4 * i;
        let n = (w >> shift) & 0xF;
        assert(n < 16) by (bit_vector)
            requires
                n == (w >> shift) & 0xF,
        ;
        push_char(s, hex_digit(n as u8));
        i = i + 1;
    }
    assert(s@ =~= start + hex8_chars(w));
}

/// Appends `0x` and the eight upper-case hexadecimal digits of `w` to `s`.
pub fn push_hex_word(s: &mut String, w: u32)
    ensures
        final(s)@ == old(s)@ + hex_word_chars(w),
{
    let ghost start = s@;
    push_char(s, '0');
    push_char(s, 'x');
    push_hex8(s, w);
    assert(s@ =~= start + hex_word_chars(w));
}

/// Appends `0x` and the two upper-case hexadecimal digits of `b` to `s`.
pub fn push_hex_byte(s: &mut String, b: u8)
    ensures
        final(s)@ == old(s)@ + hex_byte_chars(b),
{
    let ghost start = s@;
    push_char(s, '0');
    push_char(s, 'x');
    push_char(s, hex_digit(b / 16));
    push_char(s, hex_digit(b % 16));
    assert(s@ =~= start + hex_byte_chars(b));
}

/// Appends the decimal digits of `n` to `s`.
pub fn push_decimal(s: &mut String, n: u32)
    ensures
        final(s)@ == old(s)@ + decimal_chars(n as nat),
    decreases n,
{
    let ghost start = s@;
    if n >= 10 {
        push_decimal(s, n / 10);
    }
    let d = (n % 10) as u8;
    push_char(s, (48u8 + d) as char);
    assert(s@ =~= start + decimal_chars(n as nat));
}

} // verus!
