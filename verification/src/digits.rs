//! Decimal rendering of integers, verified against a character-level
//! specification, together with the lemmas that make the rendering
//! injective. The task planner builds file names from these digits, so
//! injectivity here is what keeps distinct tasks at distinct paths.

use vstd::prelude::*;

verus! {

/// The decimal digit character for a value in 0..=9.
pub open spec fn digit_char(d: int) -> char {
    if d == 0 {
        '0'
    } else if d == 1 {
        '1'
    } else if d == 2 {
        '2'
    } else if d == 3 {
        '3'
    } else if d == 4 {
        '4'
    } else if d == 5 {
        '5'
    } else if d == 6 {
        '6'
    } else if d == 7 {
        '7'
    } else if d == 8 {
        '8'
    } else {
        '9'
    }
}

/// The decimal digits of a non-negative integer, most significant
/// first, with no leading zeros (the single digit `0` for zero).
pub open spec fn dec_digits(n: nat) -> Seq<char>
    decreases n,
{
    if n < 10 {
        seq![digit_char(n as int)]
    } else {
        dec_digits(n / 10) + seq![digit_char((n % 10) as int)]
    }
}

/// The decimal rendering of an integer: a minus sign before the
/// digits of the magnitude when the value is negative.
pub open spec fn int_chars(v: int) -> Seq<char> {
    if v < 0 {
        seq!['-'] + dec_digits((-v) as nat)
    } else {
        dec_digits(v as nat)
    }
}

/// A month rendered to at least two characters: values 0..=9 gain a
/// leading zero, every other value renders as `int_chars` does.
pub open spec fn month2_chars(m: int) -> Seq<char> {
    if 0 <= m < 10 {
        seq!['0'] + dec_digits(m as nat)
    } else {
        int_chars(m)
    }
}

/// Whether a character is a decimal digit.
pub open spec fn is_digit(c: char) -> bool {
    '0' <= c && c <= '9'
}

/// Every character of `dec_digits(n)` is a decimal digit.
pub proof fn lemma_dec_digits_are_digits(n: nat)
    ensures
        forall|i: int| 0 <= i < dec_digits(n).len() ==> is_digit(#[trigger] dec_digits(n)[i]),
    decreases n,
{
    if n < 10 {
        assert(dec_digits(n)[0] == digit_char(n as int));
    } else {
        lemma_dec_digits_are_digits(n / 10);
        let prefix = dec_digits(n / 10);
        assert forall|i: int| 0 <= i < dec_digits(n).len() implies is_digit(
            #[trigger] dec_digits(n)[i],
        ) by {
            if i < prefix.len() {
                assert(dec_digits(n)[i] == prefix[i]);
            } else {
                assert(dec_digits(n)[i] == digit_char((n % 10) as int));
            }
        }
    }
}

/// `dec_digits` always yields at least one character.
pub proof fn lemma_dec_digits_len(n: nat)
    ensures
        dec_digits(n).len() >= 1,
        n < 10 <==> dec_digits(n).len() == 1,
    decreases n,
{
    if n >= 10 {
        lemma_dec_digits_len(n / 10);
    }
}

/// Two distinct non-negative integers render to distinct digit strings.
pub proof fn lemma_dec_digits_injective(a: nat, b: nat)
    requires
        dec_digits(a) == dec_digits(b),
    ensures
        a == b,
    decreases a,
{
    lemma_dec_digits_len(a);
    lemma_dec_digits_len(b);
    if a < 10 && b < 10 {
        assert(dec_digits(a)[0] == digit_char(a as int));
        assert(dec_digits(b)[0] == digit_char(b as int));
    } else if a >= 10 && b >= 10 {
        assert(dec_digits(a).last() == digit_char((a % 10) as int));
        assert(dec_digits(b).last() == digit_char((b % 10) as int));
        assert(a % 10 == b % 10);
        assert(dec_digits(a).drop_last() =~= dec_digits(a / 10));
        assert(dec_digits(b).drop_last() =~= dec_digits(b / 10));
        lemma_dec_digits_injective(a / 10, b / 10);
    }
}

/// For months 1..=12 the padded rendering is exactly two digit
/// characters.
pub proof fn lemma_month2_shape(m: int)
    requires
        1 <= m <= 12,
    ensures
        month2_chars(m).len() == 2,
        is_digit(month2_chars(m)[0]),
        is_digit(month2_chars(m)[1]),
{
    if m < 10 {
        assert(month2_chars(m) =~= seq!['0'] + seq![digit_char(m)]);
    } else {
        assert(dec_digits(m as nat) =~= dec_digits((m / 10) as nat) + seq![digit_char(m % 10)]);
        assert(dec_digits((m / 10) as nat) =~= seq![digit_char(1)]);
    }
}

/// Two distinct months in 1..=12 render to distinct two-character
/// strings.
pub proof fn lemma_month2_injective(m1: int, m2: int)
    requires
        1 <= m1 <= 12,
        1 <= m2 <= 12,
        month2_chars(m1) == month2_chars(m2),
    ensures
        m1 == m2,
{
    lemma_month2_shape(m1);
    lemma_month2_shape(m2);
    if m1 < 10 && m2 < 10 {
        assert(month2_chars(m1)[1] == digit_char(m1));
        assert(month2_chars(m2)[1] == digit_char(m2));
    } else if m1 >= 10 && m2 >= 10 {
        assert(dec_digits(m1 as nat) =~= dec_digits((m1 / 10) as nat) + seq![digit_char(m1 % 10)]);
        assert(dec_digits(m2 as nat) =~= dec_digits((m2 / 10) as nat) + seq![digit_char(m2 % 10)]);
        assert(month2_chars(m1)[1] == digit_char(m1 % 10));
        assert(month2_chars(m2)[1] == digit_char(m2 % 10));
    } else if m1 < 10 {
        assert(month2_chars(m1)[0] == '0');
        assert(dec_digits(m2 as nat) =~= dec_digits((m2 / 10) as nat) + seq![digit_char(m2 % 10)]);
        assert(dec_digits((m2 / 10) as nat) =~= seq![digit_char(1)]);
        assert(month2_chars(m2)[0] == '1');
    } else {
        assert(month2_chars(m2)[0] == '0');
        assert(dec_digits(m1 as nat) =~= dec_digits((m1 / 10) as nat) + seq![digit_char(m1 % 10)]);
        assert(dec_digits((m1 / 10) as nat) =~= seq![digit_char(1)]);
        assert(month2_chars(m1)[0] == '1');
    }
}

/// Appends one decimal digit character to a string.
fn push_digit(s: &mut String, d: u64)
    requires
        d < 10,
    ensures
        final(s)@ == old(s)@ + seq![digit_char(d as int)],
{
    let piece: &str = if d == 0 {
        "0"
    } else if d == 1 {
        "1"
    } else if d == 2 {
        "2"
    } else if d == 3 {
        "3"
    } else if d == 4 {
        "4"
    } else if d == 5 {
        "5"
    } else if d == 6 {
        "6"
    } else if d == 7 {
        "7"
    } else if d == 8 {
        "8"
    } else {
        "9"
    };
    proof {
        reveal_strlit("0");
        reveal_strlit("1");
        reveal_strlit("2");
        reveal_strlit("3");
        reveal_strlit("4");
        reveal_strlit("5");
        reveal_strlit("6");
        reveal_strlit("7");
        reveal_strlit("8");
        reveal_strlit("9");
        assert(piece@ =~= seq![digit_char(d as int)]);
    }
    s.append(piece);
}

/// Appends the decimal digits of `n`, most significant first.
pub fn push_u64_digits(s: &mut String, n: u64)
    ensures
        final(s)@ == old(s)@ + dec_digits(n as nat),
    decreases n,
{
    if n < 10 {
        push_digit(s, n);
    } else {
        push_u64_digits(s, n / 10);
        push_digit(s, n % 10);
        proof {
            assert(final(s)@ =~= old(s)@ + (dec_digits((n / 10) as nat) + seq![
                digit_char((n % 10) as int),
            ]));
        }
    }
}

/// Appends the decimal rendering of a signed value, sign included.
pub fn push_i32(s: &mut String, v: i32)
    ensures
        final(s)@ == old(s)@ + int_chars(v as int),
{
    if v < 0 {
        s.append("-");
        proof {
            reveal_strlit("-");
            assert("-"@ =~= seq!['-']);
        }
        let wide: i64 = v as i64;
        let mag: u64 = (-wide) as u64;
        push_u64_digits(s, mag);
        proof {
            assert(final(s)@ =~= old(s)@ + (seq!['-'] + dec_digits(mag as nat)));
        }
    } else {
        push_u64_digits(s, v as u64);
    }
}

/// Appends a month padded to at least two characters.
pub fn push_month2(s: &mut String, m: i32)
    ensures
        final(s)@ == old(s)@ + month2_chars(m as int),
{
    if 0 <= m && m < 10 {
        s.append("0");
        proof {
            reveal_strlit("0");
            assert("0"@ =~= seq!['0']);
        }
        push_digit(s, m as u64);
        proof {
            assert(final(s)@ =~= old(s)@ + (seq!['0'] + dec_digits(m as nat)));
        }
    } else {
        push_i32(s, m);
    }
}

} // verus!
