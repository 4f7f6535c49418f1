//! Numbers as text: decimal and lowercase hexadecimal digits.

use vstd::prelude::*;

verus! {

/// The digit characters by value, `0` to `9` and then `a` to `f`.
pub open spec fn digit_chars() -> Seq<char> {
    seq!['0', '1', '2', '3', '4', '5', '6', '7', '8', '9', 'a', 'b', 'c', 'd', 'e', 'f']
}

/// The character that stands for the digit `d`, for `d` below sixteen.
pub open spec fn digit_char(d: int) -> char
    recommends
        0 <= d < 16,
{
    digit_chars()[d]
}

/// `n` in decimal, without leading zeros; zero is `"0"`.
pub open spec fn decimal_text(n: nat) -> Seq<char>
    decreases n,
{
    if n < 10 {
        seq![digit_char(n as int)]
    } else {
        decimal_text(n / 10).push(digit_char((n % 10) as int))
    }
}

/// `n` in lowercase hexadecimal, without leading zeros; zero is `"0"`.
pub open spec fn hex_text(n: nat) -> Seq<char>
    decreases n,
{
    if n < 16 {
        seq![digit_char(n as int)]
    } else {
        hex_text(n / 16).push(digit_char((n % 16) as int))
    }
}

/// `n` in decimal, with a leading zero where it has a single digit.
pub open spec fn decimal_text_two_wide(n: nat) -> Seq<char> {
    if decimal_text(n).len() < 2 {
        seq!['0'] + decimal_text(n)
    } else {
        decimal_text(n)
    }
}

/// A byte as exactly two lowercase hexadecimal digits.
pub open spec fn hex_text_of_byte(b: u8) -> Seq<char> {
    seq![digit_char(b as int / 16), digit_char(b as int % 16)]
}

/// A number has a single decimal digit exactly when it is below ten.
pub proof fn lemma_decimal_text_len(n: nat)
    ensures
        decimal_text(n).len() >= 1,
        decimal_text(n).len() < 2 <==> n < 10,
    decreases n,
{
    if n >= 10 {
        lemma_decimal_text_len(n / 10);
    }
}

/// Appends the character of one digit.
pub fn push_digit(out: &mut String, d: u8)
    requires
        d < 16,
    ensures
        final(out)@ == old(out)@.push(digit_char(d as int)),
{
    let digits = "0123456789abcdef";
    proof {
        reveal_strlit("0123456789abcdef");
        assert(digits@ =~= digit_chars());
    }
    let one = digits.substring_ascii(d as usize, d as usize + 1);
    assert(one@ =~= seq![digit_char(d as int)]);
    out.append(one);
    assert(out@ =~= old(out)@.push(digit_char(d as int)));
}

/// Appends `n` in decimal.
pub fn push_decimal(out: &mut String, n: u32)
    ensures
        final(out)@ == old(out)@ + decimal_text(n as nat),
    decreases n,
{
    if n < 10 {
        push_digit(out, n as u8);
        assert(out@ =~= old(out)@ + decimal_text(n as nat));
    } else {
        push_decimal(out, n / 10);
        push_digit(out, (n % 10) as u8);
        assert(out@ =~= old(out)@ + decimal_text(n as nat));
    }
}

/// Appends `n` in decimal, at least two digits wide.
pub fn push_decimal_two_wide(out: &mut String, n: u32)
    ensures
        final(out)@ == old(out)@ + decimal_text_two_wide(n as nat),
{
    proof {
        lemma_decimal_text_len(n as nat);
    }
    if n < 10 {
        push_digit(out, 0);
    }
    push_decimal(out, n);
    assert(out@ =~= old(out)@ + decimal_text_two_wide(n as nat));
}

/// Appends `n` in lowercase hexadecimal.
pub fn push_hex(out: &mut String, n: u16)
    ensures
        final(out)@ == old(out)@ + hex_text(n as nat),
    decreases n,
{
    if n < 16 {
        push_digit(out, n as u8);
        assert(out@ =~= old(out)@ + hex_text(n as nat));
    } else {
        push_hex(out, n / 16);
        push_digit(out, (n % 16) as u8);
        assert(out@ =~= old(out)@ + hex_text(n as nat));
    }
}

/// Appends a byte as two lowercase hexadecimal digits.
pub fn push_hex_byte(out: &mut String, b: u8)
    ensures
        final(out)@ == old(out)@ + hex_text_of_byte(b),
{
    push_digit(out, b / 16);
    push_digit(out, b % 16);
    assert(out@ =~= old(out)@ + hex_text_of_byte(b));
}

} // verus!
