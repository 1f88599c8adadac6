//! Fixed-width lower-case hexadecimal text, as trace and span identifiers are
//! written on the wire.

use vstd::prelude::*;

verus! {

/// The character that stands for the digit `d` in lower-case base sixteen.
pub open spec fn hex_char(d: int) -> char {
    if d == 0 {
        '0'
    } else if d == 1 {
        '1'
    } else if d == 2 {
        '2'
    } else if d == 3 {
        '3'
    } else if d == 4 {
        '4'
    } else if d == 5 {
        '5'
    } else if d == 6 {
        '6'
    } else if d == 7 {
        '7'
    } else if d == 8 {
        '8'
    } else if d == 9 {
        '9'
    } else if d == 10 {
        'a'
    } else if d == 11 {
        'b'
    } else if d == 12 {
        'c'
    } else if d == 13 {
        'd'
    } else if d == 14 {
        'e'
    } else {
        'f'
    }
}

/// Whether `c` is one of `0`-`9` or `a`-`f`.
pub open spec fn is_lower_hex(c: char) -> bool {
    ('0' <= c && c <= '9') || ('a' <= c && c <= 'f')
}

/// The value of a lower-case hexadecimal digit; zero for any other character.
pub open spec fn hex_digit_value(c: char) -> int {
    if '0' <= c && c <= '9' {
        c as int - '0' as int
    } else if 'a' <= c && c <= 'f' {
        c as int - 'a' as int + 10
    } else {
        0
    }
}

/// The last `width` hexadecimal digits of `n`, most significant first.
pub open spec fn hex_text(n: nat, width: nat) -> Seq<char>
    decreases width,
{
    if width == 0 {
        Seq::empty()
    } else {
        hex_text(n / 16, (width - 1) as nat).push(hex_char((n % 16) as int))
    }
}

/// The number that a run of hexadecimal digits denotes.
pub open spec fn hex_value(s: Seq<char>) -> nat
    decreases s.len(),
{
    if s.len() == 0 {
        0
    } else {
        (hex_value(s.drop_last()) * 16 + hex_digit_value(s.last())) as nat
    }
}

/// Whether every character of `s` is a lower-case hexadecimal digit.
pub open spec fn all_lower_hex(s: Seq<char>) -> bool {
    forall|i: int| 0 <= i < s.len() ==> is_lower_hex(#[trigger] s[i])
}

/// `n` with its `width` lowest hexadecimal digits removed.
pub open spec fn above_digits(n: nat, width: nat) -> nat
    decreases width,
{
    if width == 0 {
        n
    } else {
        above_digits(n / 16, (width - 1) as nat)
    }
}

/// Each digit has a character of its own, and the character gives the
/// digit back.
pub proof fn lemma_hex_char_value(d: int)
    requires
        0 <= d < 16,
    ensures
        is_lower_hex(hex_char(d)),
        hex_digit_value(hex_char(d)) == d,
{
}

/// Text written with `width` digits has `width` characters, all of them
/// lower-case hexadecimal digits.
pub proof fn lemma_hex_text_shape(n: nat, width: nat)
    ensures
        hex_text(n, width).len() == width,
        all_lower_hex(hex_text(n, width)),
    decreases width,
{
    if width > 0 {
        lemma_hex_text_shape(n / 16, (width - 1) as nat);
        lemma_hex_char_value((n % 16) as int);
    }
}

/// Reading back what was written gives the number again, provided the
/// number fits in `width` digits.
pub proof fn lemma_hex_round_trip(n: nat, width: nat)
    requires
        above_digits(n, width) == 0,
    ensures
        hex_value(hex_text(n, width)) == n,
    decreases width,
{
    if width > 0 {
        let rest = hex_text(n / 16, (width - 1) as nat);
        let text = hex_text(n, width);
        lemma_hex_round_trip(n / 16, (width - 1) as nat);
        lemma_hex_char_value((n % 16) as int);
        assert(text.drop_last() =~= rest);
    }
}

/// Every 64-bit number fits in sixteen digits.
pub proof fn lemma_u64_fits(n: u64)
    ensures
        above_digits(n as nat, 16) == 0,
{
    reveal_with_fuel(above_digits, 17);
}

/// Every 128-bit number fits in thirty-two digits.
pub proof fn lemma_u128_fits(n: u128)
    ensures
        above_digits(n as nat, 32) == 0,
{
    reveal_with_fuel(above_digits, 33);
}

} // verus!
