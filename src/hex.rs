//! Lowercase hexadecimal text.

use vstd::prelude::*;

verus! {

/// The sixteen lowercase hexadecimal digits, in order of value.
pub const HEX_DIGITS: &'static str = "0123456789abcdef";

/// The digit of value `n`, for `n` below 16.
pub open spec fn hex_digit(n: int) -> char {
    HEX_DIGITS@[n]
}

/// Whether `c` is a lowercase hexadecimal digit.
pub open spec fn is_lower_hex_digit(c: char) -> bool {
    HEX_DIGITS@.contains(c)
}

/// Every digit value below 16 gives a lowercase hexadecimal digit.
pub proof fn lemma_hex_digit_is_lower_hex(n: int)
    requires
        0 <= n < 16,
    ensures
        is_lower_hex_digit(hex_digit(n)),
{
    reveal_strlit("0123456789abcdef");
    assert(HEX_DIGITS@[n] == hex_digit(n));
}

/// Two digits for each byte, the high half first.
pub open spec fn lower_hex(bytes: Seq<u8>) -> Seq<char>
    decreases bytes.len(),
{
    if bytes.len() == 0 {
        Seq::empty()
    } else {
        let last = bytes.last() as int;
        lower_hex(bytes.drop_last()) + seq![hex_digit(last / 16), hex_digit(last % 16)]
    }
}

/// Appends the digit of value `n` to `s`.
pub fn push_hex_digit(s: &mut String, n: u8)
    requires
        n < 16,
    ensures
        final(s)@ == old(s)@ + seq![hex_digit(n as int)],
{
    proof {
        reveal_strlit("0123456789abcdef");
    }
    let digit = HEX_DIGITS.substring_char(n as usize, n as usize + 1);
    assert(digit@ =~= seq![hex_digit(n as int)]);
    s.append(digit);
}

/// The bytes as lowercase hexadecimal text, two digits each.
pub fn to_lower_hex(bytes: &[u8]) -> (r: String)
    ensures
        r@ == lower_hex(bytes@),
        r@.len() == 2 * bytes@.len(),
{
    let mut r = String::new();
    let mut i: usize = 0;
    while i < bytes.len()
        invariant
            i <= bytes@.len(),
            r@ == lower_hex(bytes@.take(i as int)),
            r@.len() == 2 * i,
        decreases bytes.len() - i,
    {
        let b = bytes[i];
        push_hex_digit(&mut r, b / 16);
        push_hex_digit(&mut r, b % 16);
        proof {
            let next = bytes@.take(i + 1);
            assert(next.drop_last() =~= bytes@.take(i as int));
            assert(next.last() == b);
            assert(r@ =~= lower_hex(next));
        }
        i += 1;
    }
    assert(bytes@.take(bytes@.len() as int) =~= bytes@);
    r
}

} // verus!
