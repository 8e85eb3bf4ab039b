//! Decimal rendering of unsigned integers as ASCII digits.

use vstd::prelude::*;
use vstd::utf8::is_leading_byte_width_1;
use vstd::utf8::partial_valid_utf8_extend_ascii_block;
use vstd::utf8::valid_utf8;

verus! {

/// The ASCII code of the digit `0`.
pub const ASCII_ZERO: u8 = 48;

/// The ASCII digits of `n` in base ten, most significant first, without
/// leading zeros; zero is the single digit `0`.
pub open spec fn decimal(n: nat) -> Seq<u8>
    decreases n,
{
    if n < 10 {
        seq![(ASCII_ZERO + n) as u8]
    } else {
        decimal(n / 10).push((ASCII_ZERO + n % 10) as u8)
    }
}

/// True when `b` is one of the ASCII digits `0` to `9`.
pub open spec fn is_digit(b: u8) -> bool {
    ASCII_ZERO <= b <= ASCII_ZERO + 9
}

/// The number that a sequence of ASCII digits denotes in base ten.
pub open spec fn digits_value(s: Seq<u8>) -> nat
    decreases s.len(),
{
    if s.len() == 0 {
        0
    } else {
        (10 * digits_value(s.drop_last()) + (s.last() - ASCII_ZERO)) as nat
    }
}

/// Every byte of a rendering is a digit, the rendering is never empty, it
/// starts with `0` only for zero itself, and it denotes the number rendered.
pub proof fn lemma_decimal_sound(n: nat)
    ensures
        decimal(n).len() >= 1,
        forall|i: int| 0 <= i < decimal(n).len() ==> is_digit(#[trigger] decimal(n)[i]),
        decimal(n)[0] == ASCII_ZERO <==> n == 0,
        digits_value(decimal(n)) == n,
    decreases n,
{
    if n < 10 {
        assert(decimal(n).drop_last() =~= Seq::<u8>::empty());
        assert(digits_value(decimal(n).drop_last()) == 0);
    } else {
        lemma_decimal_sound(n / 10);
        assert(decimal(n).drop_last() =~= decimal(n / 10));
    }
}

/// A rendering is valid UTF-8.
pub proof fn lemma_decimal_valid_utf8(n: nat)
    ensures
        valid_utf8(decimal(n)),
{
    let d = decimal(n);
    lemma_decimal_sound(n);
    assert forall|i: int| 0 <= i < d.len() implies #[trigger] is_leading_byte_width_1(d[i]) by {
        let b = d[i];
        assert(is_digit(b));
        assert(b & 0x80 == 0) by (bit_vector)
            requires
                48 <= b <= 57,
        ;
    }
    assert(d.subrange(0, 0) =~= Seq::<u8>::empty());
    partial_valid_utf8_extend_ascii_block(d, 0, d.len() as int);
    assert(d.subrange(0, d.len() as int) =~= d);
}

/// Appends the decimal rendering of `n` to `out`.
pub fn write_decimal(out: &mut Vec<u8>, n: usize)
    ensures
        final(out)@ == old(out)@ + decimal(n as nat),
    decreases n,
{
    if n >= 10 {
        write_decimal(out, n / 10);
    }
    let digit: u8 = (n % 10) as u8;
    out.push(ASCII_ZERO + digit);
    assert(out@ =~= old(out)@ + decimal(n as nat));
}

} // verus!
