//! Decimal rendering of unsigned integers, as `{}` formats a `usize`.

use vstd::prelude::*;

verus! {

/// The character of a decimal digit `d` (`0 <= d < 10`).
pub open spec fn digit_char(d: nat) -> char {
    if d == 0 {
        '0'
    } else if d == 1 {
        '1'
    } else if d == 2 {
        '2'
    } else if d == 3 {
        '3'
    } else if d == 4 {
        '4'
    } else if d == 5 {
        '5'
    } else if d == 6 {
        '6'
    } else if d == 7 {
        '7'
    } else if d == 8 {
        '8'
    } else {
        '9'
    }
}

/// The decimal representation of `n`: no sign, no leading zeros, `"0"` for zero.
pub open spec fn decimal_digits(n: nat) -> Seq<char>
    decreases n,
{
    if n < 10 {
        seq![digit_char(n)]
    } else {
        decimal_digits(n / 10).push(digit_char(n % 10))
    }
}

/// Whether `c` is one of the characters `'0'` to `'9'`.
pub open spec fn is_decimal_digit(c: char) -> bool {
    '0' as int <= c as int <= '9' as int
}

/// The number that a string of decimal digits denotes, most significant
/// digit first.
pub open spec fn numeral_value(digits: Seq<char>) -> int
    decreases digits.len(),
{
    if digits.len() == 0 {
        0
    } else {
        numeral_value(digits.drop_last()) * 10 + (digits.last() as int - '0' as int)
    }
}

/// `digits` is the way `{}` writes `n`: at least one character, all decimal
/// digits, no leading zero, and denoting `n`.
pub open spec fn is_numeral_of(digits: Seq<char>, n: nat) -> bool {
    &&& digits.len() >= 1
    &&& forall|i: int| 0 <= i < digits.len() ==> is_decimal_digit(#[trigger] digits[i])
    &&& (digits.len() > 1 ==> digits[0] != '0')
    &&& numeral_value(digits) == n
}

proof fn lemma_digit_char(d: nat)
    requires
        d < 10,
    ensures
        is_decimal_digit(digit_char(d)),
        digit_char(d) as int - '0' as int == d,
        d > 0 ==> digit_char(d) != '0',
{
}

/// `decimal_digits(n)` is the decimal numeral of `n`: its digits, read back
/// most significant first, give `n`, and it has no leading zero.
pub proof fn lemma_decimal_digits_is_numeral(n: nat)
    ensures
        is_numeral_of(decimal_digits(n), n),
        n == 0 ==> decimal_digits(n) == seq!['0'],
    decreases n,
{
    if n < 10 {
        lemma_digit_char(n);
        let s = decimal_digits(n);
        assert(s.drop_last() =~= Seq::<char>::empty());
        assert(numeral_value(s.drop_last()) == 0);
        assert(numeral_value(s) == n);
        assert(is_decimal_digit(s[0]));
    } else {
        lemma_decimal_digits_is_numeral(n / 10);
        lemma_digit_char(n % 10);
        let prefix = decimal_digits(n / 10);
        let s = decimal_digits(n);
        assert(s.drop_last() =~= prefix);
        assert(s[0] == prefix[0]);
        assert(n == (n / 10) * 10 + n % 10);
        assert forall|i: int| 0 <= i < s.len() implies is_decimal_digit(#[trigger] s[i]) by {
            if i < prefix.len() {
                assert(s[i] == prefix[i]);
            }
        }
        if n / 10 < 10 {
            lemma_digit_char(n / 10);
            assert(prefix == seq![digit_char(n / 10)]);
        } else {
            assert(decimal_digits((n / 10 / 10) as nat).len() >= 1);
            assert(prefix.len() > 1);
        }
        assert(s.last() == digit_char((n % 10) as nat));
        assert(numeral_value(prefix) == n / 10);
        assert(numeral_value(s) == numeral_value(prefix) * 10 + (s.last() as int - '0' as int));
        assert(numeral_value(s) == n);
    }
}

fn digit_str(d: usize) -> (s: &'static str)
    requires
        d < 10,
    ensures
        s@ == seq![digit_char(d as nat)],
{
    proof {
        reveal_strlit("0");
        reveal_strlit("1");
        reveal_strlit("2");
        reveal_strlit("3");
        reveal_strlit("4");
        reveal_strlit("5");
        reveal_strlit("6");
        reveal_strlit("7");
        reveal_strlit("8");
        reveal_strlit("9");
    }
    if d == 0 {
        "0"
    } else if d == 1 {
        "1"
    } else if d == 2 {
        "2"
    } else if d == 3 {
        "3"
    } else if d == 4 {
        "4"
    } else if d == 5 {
        "5"
    } else if d == 6 {
        "6"
    } else if d == 7 {
        "7"
    } else if d == 8 {
        "8"
    } else {
        "9"
    }
}

/// Appends the decimal representation of `n` to `out`.
pub fn push_decimal(out: &mut String, n: usize)
    ensures
        final(out)@ == old(out)@ + decimal_digits(n as nat),
        is_numeral_of(final(out)@.subrange(old(out)@.len() as int, final(out)@.len() as int), n as nat),
    decreases n,
{
    if n >= 10 {
        push_decimal(out, n / 10);
    }
    out.append(digit_str(n % 10));
    proof {
        assert(old(out)@ + decimal_digits(n as nat) =~= if n < 10 {
            old(out)@ + seq![digit_char(n as nat)]
        } else {
            (old(out)@ + decimal_digits((n / 10) as nat)) + seq![digit_char((n % 10) as nat)]
        });
        lemma_decimal_digits_is_numeral(n as nat);
        assert(out@.subrange(old(out)@.len() as int, out@.len() as int) =~= decimal_digits(
            n as nat,
        ));
    }
}

} // verus!
