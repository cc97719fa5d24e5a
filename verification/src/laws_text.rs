//! Laws of rendering: what is written can be read back.
use vstd::prelude::*;

use crate::text::{dec, dec_int, digit_char, digits, hex, hex2, join, left, right};

verus! {

/// The value of a digit of either base, by its place in the code: `0` to `9`, then `a` to `f`.
pub open spec fn digit_worth(c: char) -> int {
    if c as int >= 97 {
        c as int - 87
    } else {
        c as int - 48
    }
}

/// Whether a character is a decimal digit.
pub open spec fn is_decimal(c: char) -> bool {
    48 <= c as int <= 57
}

/// Whether a character is a hexadecimal digit as it is written: `0` to `9` or `a` to `f`.
pub open spec fn is_hexadecimal(c: char) -> bool {
    48 <= c as int <= 57 || 97 <= c as int <= 102
}

/// The number that digits make, each worth the base times what is behind it.
pub open spec fn worth(s: Seq<char>, base: int) -> int
    decreases s.len(),
{
    if s.len() == 0 {
        0
    } else {
        worth(s.drop_last(), base) * base + digit_worth(s.last())
    }
}

proof fn lemma_digit_char(d: nat)
    requires
        d < 16,
    ensures
        digit_worth(digit_char(d)) == d,
        is_hexadecimal(digit_char(d)),
        d < 10 ==> is_decimal(digit_char(d)),
{
}

proof fn lemma_digits(n: nat, base: nat)
    requires
        base == 10 || base == 16,
    ensures
        worth(digits(n, base), base as int) == n,
        digits(n, base).len() > 0,
        digits(n, base).len() > 1 ==> digit_worth(digits(n, base)[0]) != 0,
        n < base ==> digits(n, base).len() == 1,
        forall|i: int|
            0 <= i < digits(n, base).len() ==> is_hexadecimal(#[trigger] digits(n, base)[i]) && (
            base == 10 ==> is_decimal(digits(n, base)[i])),
    decreases n,
{
    let s = digits(n, base);
    if n < base {
        lemma_digit_char(n);
        assert(s.drop_last() =~= Seq::<char>::empty());
        assert(worth(s.drop_last(), base as int) == 0);
    } else {
        let high = n / base;
        assert(high < n && high > 0) by (nonlinear_arith)
            requires
                base >= 2,
                n >= base,
                high == n / base,
        ;
        lemma_digits(high, base);
        lemma_digit_char(n % base);
        let t = digits(high, base);
        assert(s.drop_last() =~= t);
        assert(high * base + n % base == n) by (nonlinear_arith)
            requires
                base >= 2,
                high == n / base,
        ;
        if t.len() == 1 {
            assert(worth(t, base as int) == high);
            assert(t.drop_last() =~= Seq::<char>::empty());
            assert(worth(t.drop_last(), base as int) == 0);
            assert(digit_worth(t[0]) == high);
        }
        assert forall|i: int| 0 <= i < s.len() implies is_hexadecimal(#[trigger] s[i]) && (base
            == 10 ==> is_decimal(s[i])) by {
            if i < t.len() {
                assert(s[i] == t[i]);
            }
        }
    }
}

/// Law: a number in decimal is made of decimal digits, begins with no needless zero, and is worth
/// that number.
pub proof fn law_decimal_reads_back(n: nat)
    ensures
        worth(dec(n), 10) == n,
        dec(n).len() > 0,
        dec(n).len() > 1 ==> dec(n)[0] != '0',
        forall|i: int| 0 <= i < dec(n).len() ==> is_decimal(#[trigger] dec(n)[i]),
{
    lemma_digits(n, 10);
}

/// Law: different numbers are written differently.
pub proof fn law_decimal_is_unambiguous(m: nat, n: nat)
    requires
        dec(m) == dec(n),
    ensures
        m == n,
{
    lemma_digits(m, 10);
    lemma_digits(n, 10);
}

/// Law: a signed number in decimal is its size, behind a minus sign where it is negative.
pub proof fn law_signed_reads_back(n: int)
    ensures
        n >= 0 ==> worth(dec_int(n), 10) == n && dec_int(n)[0] != '-',
        n < 0 ==> dec_int(n)[0] == '-' && worth(dec_int(n).skip(1), 10) == -n,
{
    if n >= 0 {
        lemma_digits(n as nat, 10);
        assert(is_decimal(dec_int(n)[0]));
    } else {
        lemma_digits((-n) as nat, 10);
        assert(dec_int(n).skip(1) =~= dec((-n) as nat));
    }
}

/// Law: a number in hexadecimal is made of lower-case digits, begins with no needless zero, and is
/// worth that number.
pub proof fn law_hexadecimal_reads_back(n: nat)
    ensures
        worth(hex(n), 16) == n,
        hex(n).len() > 0,
        hex(n).len() > 1 ==> hex(n)[0] != '0',
        forall|i: int| 0 <= i < hex(n).len() ==> is_hexadecimal(#[trigger] hex(n)[i]),
{
    lemma_digits(n, 16);
}

/// Law: a mask is written with two digits at least, a zero in front of a single one.
pub proof fn law_mask_has_two_digits(n: nat)
    ensures
        hex2(n).len() >= 2,
        n < 16 ==> hex2(n) == seq!['0'] + hex(n),
        n >= 16 ==> hex2(n) == hex(n),
{
    lemma_digits(n, 16);
    if n < 16 {
        assert(hex2(n) =~= seq!['0'] + hex(n));
    } else {
        let s = hex(n);
        assert(s.len() >= 2) by {
            lemma_digits(n / 16, 16);
        }
        assert(hex2(n) =~= hex(n));
    }
}

/// Whether text is made of blanks alone.
pub open spec fn blank(s: Seq<char>) -> bool {
    forall|i: int| 0 <= i < s.len() ==> #[trigger] s[i] == ' '
}

/// Law: text that is set to the right ends a field of the width, or of its own length where it is
/// longer, and blanks come before it.
pub proof fn law_right_keeps_the_text(s: Seq<char>, width: int)
    requires
        width >= 0,
    ensures
        ({
            let out = right(s, width);
            &&& out.len() == if s.len() < width {
                width
            } else {
                s.len() as int
            }
            &&& out.skip(out.len() - s.len()) == s
            &&& blank(out.take(out.len() - s.len()))
        }),
{
    let out = right(s, width);
    assert(out.skip(out.len() - s.len()) =~= s);
}

/// Law: text that is set to the left begins a field of the width, or of its own length where it is
/// longer, and blanks come behind it.
pub proof fn law_left_keeps_the_text(s: Seq<char>, width: int)
    requires
        width >= 0,
    ensures
        ({
            let out = left(s, width);
            &&& out.len() == if s.len() < width {
                width
            } else {
                s.len() as int
            }
            &&& out.take(s.len() as int) == s
            &&& blank(out.skip(s.len() as int))
        }),
{
    let out = left(s, width);
    assert(out.take(s.len() as int) =~= s);
}

/// Law: parts are joined in their order, with the separator between two of them and nowhere else.
pub proof fn law_join_separates(parts: Seq<Seq<char>>, part: Seq<char>, sep: Seq<char>)
    ensures
        join(Seq::<Seq<char>>::empty(), sep).len() == 0,
        join(seq![part], sep) == part,
        parts.len() > 0 ==> join(parts.push(part), sep) == join(parts, sep) + sep + part,
{
    assert(parts.push(part).drop_last() =~= parts);
}

} // verus!
