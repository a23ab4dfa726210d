//! Decimal and hexadecimal rendering of numbers as strings.
//!
//! The auction identifier is a hash rendered in lowercase hexadecimal, and
//! the closing block height enters the hashed text in decimal. Both encoders
//! are verified against character-level spec functions.

use vstd::prelude::*;

verus! {

/// Relies on `String::push`: appends the given character to the end of the
/// string.
#[verifier::external_body]
pub(crate) fn push_char(s: &mut String, c: char)
    ensures
        final (s)@ == old(s)@.push(c),
{
    s.push(c)
}

/// The character for one digit value, lowercase; digits ten to fifteen only
/// occur in hexadecimal.
pub open spec fn digit_char(n: u8) -> char
    recommends
        n < 16,
{
    if n == 0 {
        '0'
    } else if n == 1 {
        '1'
    } else if n == 2 {
        '2'
    } else if n == 3 {
        '3'
    } else if n == 4 {
        '4'
    } else if n == 5 {
        '5'
    } else if n == 6 {
        '6'
    } else if n == 7 {
        '7'
    } else if n == 8 {
        '8'
    } else if n == 9 {
        '9'
    } else if n == 10 {
        'a'
    } else if n == 11 {
        'b'
    } else if n == 12 {
        'c'
    } else if n == 13 {
        'd'
    } else if n == 14 {
        'e'
    } else {
        'f'
    }
}

/// [`digit_char`], executably.
pub fn digit_to_char(n: u8) -> (c: char)
    requires
        n < 16,
    ensures
        c == digit_char(n),
{
    if n == 0 {
        '0'
    } else if n == 1 {
        '1'
    } else if n == 2 {
        '2'
    } else if n == 3 {
        '3'
    } else if n == 4 {
        '4'
    } else if n == 5 {
        '5'
    } else if n == 6 {
        '6'
    } else if n == 7 {
        '7'
    } else if n == 8 {
        '8'
    } else if n == 9 {
        '9'
    } else if n == 10 {
        'a'
    } else if n == 11 {
        'b'
    } else if n == 12 {
        'c'
    } else if n == 13 {
        'd'
    } else if n == 14 {
        'e'
    } else {
        'f'
    }
}

/// The usual decimal rendering of a number: no sign, no leading zero except
/// on zero itself.
pub open spec fn dec_chars(n: nat) -> Seq<char>
    decreases n,
{
    if n < 10 {
        seq![digit_char(n as u8)]
    } else {
        dec_chars(n / 10).push(digit_char((n % 10) as u8))
    }
}

/// Renders a block height in decimal, as [`dec_chars`] says.
pub fn to_dec_string(n: u64) -> (r: String)
    ensures
        r@ == dec_chars(n as nat),
    decreases n,
{
    if n < 10 {
        let mut s = String::new();
        push_char(&mut s, digit_to_char(n as u8));
        proof {
            assert(s@ =~= seq![digit_char(n as u8)]);
        }
        s
    } else {
        let mut s = to_dec_string(n / 10);
        push_char(&mut s, digit_to_char((n % 10) as u8));
        s
    }
}

/// A decimal rendering is never empty.
proof fn lemma_dec_chars_nonempty(n: nat)
    ensures
        dec_chars(n).len() >= 1,
{
    if n < 10 {
        assert(dec_chars(n) == seq![digit_char(n as u8)]);
    } else {
        assert(dec_chars(n) == dec_chars(n / 10).push(digit_char((n % 10) as u8)));
    }
}

/// The digit characters are pairwise distinct: equal characters mean equal
/// digits.
proof fn lemma_digit_char_injective(d1: u8, d2: u8)
    requires
        d1 < 16,
        d2 < 16,
        digit_char(d1) == digit_char(d2),
    ensures
        d1 == d2,
{
}

/// Distinct numbers render to distinct decimal texts: the rendering has no
/// sign and no leading zero, so it determines the number.
pub proof fn lemma_dec_chars_injective(n1: nat, n2: nat)
    requires
        dec_chars(n1) == dec_chars(n2),
    ensures
        n1 == n2,
    decreases n1,
{
    lemma_dec_chars_nonempty(n1);
    lemma_dec_chars_nonempty(n2);
    if n1 < 10 && n2 < 10 {
        assert(dec_chars(n1) == seq![digit_char(n1 as u8)]);
        assert(dec_chars(n2) == seq![digit_char(n2 as u8)]);
        assert(dec_chars(n1)[0] == digit_char(n1 as u8));
        assert(dec_chars(n2)[0] == digit_char(n2 as u8));
        lemma_digit_char_injective(n1 as u8, n2 as u8);
    } else if n1 < 10 && n2 >= 10 {
        lemma_dec_chars_nonempty(n2 / 10);
        assert(dec_chars(n1) == seq![digit_char(n1 as u8)]);
        assert(dec_chars(n2) == dec_chars(n2 / 10).push(digit_char((n2 % 10) as u8)));
        assert(dec_chars(n2).len() >= 2);
        assert(false);
    } else if n1 >= 10 && n2 < 10 {
        lemma_dec_chars_nonempty(n1 / 10);
        assert(dec_chars(n2) == seq![digit_char(n2 as u8)]);
        assert(dec_chars(n1) == dec_chars(n1 / 10).push(digit_char((n1 % 10) as u8)));
        assert(dec_chars(n1).len() >= 2);
        assert(false);
    } else {
        let s1 = dec_chars(n1 / 10);
        let s2 = dec_chars(n2 / 10);
        let c1 = digit_char((n1 % 10) as u8);
        let c2 = digit_char((n2 % 10) as u8);
        assert(dec_chars(n1) == s1.push(c1));
        assert(dec_chars(n2) == s2.push(c2));
        assert(s1.push(c1).len() == s1.len() + 1);
        assert(s2.push(c2).len() == s2.len() + 1);
        assert(s1.len() == s2.len());
        assert(s1.push(c1)[s1.len() as int] == c1);
        assert(s2.push(c2)[s2.len() as int] == c2);
        assert(c1 == c2);
        lemma_digit_char_injective((n1 % 10) as u8, (n2 % 10) as u8);
        assert(s1 =~= s2) by {
            assert(forall|i: int|
                0 <= i < s1.len() ==> #[trigger] s1[i] == s1.push(c1)[i] && s2[i] == s2.push(
                    c2,
                )[i]);
        }
        lemma_dec_chars_injective(n1 / 10, n2 / 10);
        assert(n1 == 10 * (n1 / 10) + (n1 % 10)) by (nonlinear_arith);
        assert(n2 == 10 * (n2 / 10) + (n2 % 10)) by (nonlinear_arith);
    }
}

/// Two lowercase hexadecimal characters for every byte, high nibble first.
pub open spec fn hex_chars(bytes: Seq<u8>) -> Seq<char>
    decreases bytes.len(),
{
    if bytes.len() == 0 {
        Seq::empty()
    } else {
        hex_chars(bytes.drop_last()).push(digit_char((bytes.last() / 16) as u8)).push(
            digit_char((bytes.last() % 16) as u8),
        )
    }
}

/// The hexadecimal rendering spends exactly two characters per byte.
pub proof fn lemma_hex_chars_len(bytes: Seq<u8>)
    ensures
        hex_chars(bytes).len() == 2 * bytes.len(),
    decreases bytes.len(),
{
    if bytes.len() > 0 {
        lemma_hex_chars_len(bytes.drop_last());
    }
}

/// Renders bytes in lowercase hexadecimal, as [`hex_chars`] says.
pub fn to_hex_string(bytes: &Vec<u8>) -> (r: String)
    ensures
        r@ == hex_chars(bytes@),
{
    let mut r = String::new();
    let mut i: usize = 0;
    proof {
        assert(bytes@.subrange(0, 0) =~= Seq::<u8>::empty());
        assert(r@ =~= Seq::<char>::empty());
    }
    while i < bytes.len()
        invariant
            i <= bytes@.len(),
            r@ == hex_chars(bytes@.subrange(0, i as int)),
        decreases bytes@.len() - i,
    {
        let b = bytes[i];
        push_char(&mut r, digit_to_char(b / 16));
        push_char(&mut r, digit_to_char(b % 16));
        proof {
            let pre = bytes@.subrange(0, (i + 1) as int);
            assert(pre.drop_last() =~= bytes@.subrange(0, i as int));
            assert(pre.last() == bytes@[i as int]);
        }
        i += 1;
    }
    proof {
        assert(bytes@.subrange(0, bytes@.len() as int) =~= bytes@);
    }
    r
}

} // verus!
