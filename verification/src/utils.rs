//! Date-range expansion and remote-name planning.
//!
//! `parse_date` reads a `YYYY-MM` string, `generate_date_range`
//! expands two such strings into the closed interval of (year, month)
//! keys, and `generate_url` builds the remote name for one key. Each
//! is specified at the character level, so the contracts pin both the
//! accepted inputs and the produced values exactly.

use vstd::prelude::*;

use crate::digits::{
    dec_digits, digit_char, int_chars, is_digit, lemma_dec_digits_are_digits,
    lemma_dec_digits_injective, lemma_dec_digits_len, lemma_month2_injective, lemma_month2_shape,
    month2_chars, push_i32, push_month2,
};
use crate::error::TlcError;

verus! {

/// The numeric value of a digit character.
pub open spec fn digit_val(c: char) -> int {
    c as int - '0' as int
}

/// Whether every character of `s` is a decimal digit.
pub open spec fn all_digits(s: Seq<char>) -> bool {
    forall|i: int| 0 <= i < s.len() ==> is_digit(#[trigger] s[i])
}

/// The value of a digit string read in base ten.
pub open spec fn digits_val(s: Seq<char>) -> int
    decreases s.len(),
{
    if s.len() == 0 {
        0
    } else {
        digits_val(s.drop_last()) * 10 + digit_val(s.last())
    }
}

/// The digits of a numeric string once an optional leading plus sign
/// is removed.
pub open spec fn numeric_body(s: Seq<char>) -> Seq<char> {
    if s.len() > 0 && s[0] == '+' {
        s.drop_first()
    } else {
        s
    }
}

/// Whether `s` is a number this library accepts: an optional plus
/// sign, then one or more digits, with a value that fits in an `i32`.
pub open spec fn parses_as_i32(s: Seq<char>) -> bool {
    &&& numeric_body(s).len() > 0
    &&& all_digits(numeric_body(s))
    &&& digits_val(numeric_body(s)) <= i32::MAX
}

/// The value of an accepted numeric string.
pub open spec fn parsed_value(s: Seq<char>) -> int {
    digits_val(numeric_body(s))
}

/// Whether position `i` holds the only hyphen of `s`.
pub open spec fn splits_once_at(s: Seq<char>, i: int) -> bool {
    &&& 0 <= i < s.len()
    &&& s[i] == '-'
    &&& forall|j: int| 0 <= j < s.len() && j != i ==> s[j] != '-'
}

/// Whether `s` splits into exactly two parts on a hyphen.
pub open spec fn well_formed_date(s: Seq<char>) -> bool {
    exists|i: int| splits_once_at(s, i)
}

/// The position of the only hyphen of a well-formed date string.
pub open spec fn hyphen_at(s: Seq<char>) -> int {
    choose|i: int| splits_once_at(s, i)
}

/// The part of a well-formed date string before the hyphen.
pub open spec fn year_part(s: Seq<char>) -> Seq<char> {
    s.subrange(0, hyphen_at(s))
}

/// The part of a well-formed date string after the hyphen.
pub open spec fn month_part(s: Seq<char>) -> Seq<char> {
    s.subrange(hyphen_at(s) + 1, s.len() as int)
}

/// Whether a date string parses: it splits on one hyphen, both parts
/// are numbers, and the month lies in 1..=12.
pub open spec fn date_parses(s: Seq<char>) -> bool {
    &&& well_formed_date(s)
    &&& parses_as_i32(year_part(s))
    &&& parses_as_i32(month_part(s))
    &&& 1 <= parsed_value(month_part(s)) <= 12
}

/// The (year, month) value of a date string that parses.
pub open spec fn date_value(s: Seq<char>) -> (int, int) {
    (parsed_value(year_part(s)), parsed_value(month_part(s)))
}

/// The error `parse_date` reports for a date string that does not
/// parse, each failure with its own message.
pub open spec fn date_error_matches(s: Seq<char>, e: TlcError) -> bool {
    if !well_formed_date(s) {
        e matches TlcError::InvalidDate(m) && m@ == "Expected YYYY-MM"@
    } else if !parses_as_i32(year_part(s)) {
        e matches TlcError::InvalidDate(m) && m@ == "Invalid year"@
    } else if !parses_as_i32(month_part(s)) {
        e matches TlcError::InvalidDate(m) && m@ == "Invalid month"@
    } else {
        e == TlcError::InvalidMonth(parsed_value(month_part(s)) as i32)
    }
}

/// The value of a digit string is never negative.
proof fn lemma_digits_val_nonneg(s: Seq<char>)
    requires
        all_digits(s),
    ensures
        digits_val(s) >= 0,
    decreases s.len(),
{
    if s.len() > 0 {
        assert(all_digits(s.drop_last()));
        lemma_digits_val_nonneg(s.drop_last());
    }
}

/// Extending a digit string multiplies its value by ten and adds the
/// new digit.
proof fn lemma_digits_val_take_step(s: Seq<char>, k: int)
    requires
        0 <= k < s.len(),
    ensures
        digits_val(s.take(k + 1)) == digits_val(s.take(k)) * 10 + digit_val(s[k]),
{
    assert(s.take(k + 1).drop_last() =~= s.take(k));
    assert(s.take(k + 1).last() == s[k]);
}

/// A prefix of a digit string never has a larger value than the whole.
proof fn lemma_digits_val_prefix_le(s: Seq<char>, k: int)
    requires
        all_digits(s),
        0 <= k <= s.len(),
    ensures
        digits_val(s.take(k)) <= digits_val(s),
    decreases s.len() - k,
{
    if k < s.len() {
        lemma_digits_val_take_step(s, k);
        assert(all_digits(s.take(k)));
        lemma_digits_val_nonneg(s.take(k));
        assert(digits_val(s.take(k)) <= digits_val(s.take(k + 1)));
        lemma_digits_val_prefix_le(s, k + 1);
    } else {
        assert(s.take(k) =~= s);
    }
}

/// The value of an accepted numeric string is never negative: the
/// accepted form has no minus sign.
pub proof fn lemma_parsed_value_nonneg(s: Seq<char>)
    requires
        parses_as_i32(s),
    ensures
        0 <= parsed_value(s) <= i32::MAX,
{
    lemma_digits_val_nonneg(numeric_body(s));
}

/// Reads a numeric part: an optional plus sign followed by digits,
/// rejected when a character is no digit or the value does not fit in
/// an `i32`.
fn parse_number(s: &str) -> (r: Option<i32>)
    ensures
        r is Some <==> parses_as_i32(s@),
        r matches Some(v) ==> v == parsed_value(s@),
{
    let n: usize = s.unicode_len();
    let start: usize = if n > 0 && s.get_char(0) == '+' {
        1
    } else {
        0
    };
    let ghost body = numeric_body(s@);
    proof {
        assert(body =~= s@.skip(start as int));
    }
    if start >= n {
        assert(!parses_as_i32(s@));
        return None;
    }
    let mut acc: u64 = 0;
    let mut i: usize = start;
    while i < n
        invariant
            start <= i <= n,
            n == s@.len(),
            body == numeric_body(s@),
            body == s@.skip(start as int),
            body.len() == n - start,
            all_digits(body.take(i - start)),
            acc == digits_val(body.take(i - start)),
            acc <= i32::MAX,
        decreases n - i,
    {
        let c: char = s.get_char(i);
        let cu: u32 = c as u32;
        if cu < 48 || cu > 57 {
            proof {
                assert(body[i - start] == c);
                assert(!is_digit(c));
                assert(!all_digits(body));
            }
            return None;
        }
        let d: u64 = (cu - 48) as u64;
        proof {
            assert(body[i - start] == c);
            assert(is_digit(c));
            assert(d == digit_val(c));
            lemma_digits_val_take_step(body, i - start);
        }
        acc = acc * 10 + d;
        let ghost k: int = i - start + 1;
        proof {
            assert(all_digits(body.take(k)));
            assert(acc == digits_val(body.take(k)));
        }
        if acc > 2147483647 {
            proof {
                if all_digits(body) {
                    lemma_digits_val_prefix_le(body, k);
                }
                assert(!parses_as_i32(s@));
            }
            return None;
        }
        i = i + 1;
    }
    proof {
        assert(body.take(n - start) =~= body);
        assert(parses_as_i32(s@));
    }
    Some(acc as i32)
}

/// Parses a `YYYY-MM` date string into its (year, month) pair.
///
/// The string must split into exactly two parts on a hyphen; each
/// part must be a number; the month must lie in 1..=12. Each failure
/// is reported with its own error.
pub fn parse_date(date_str: &str) -> (r: Result<(i32, i32), TlcError>)
    ensures
        r is Ok <==> date_parses(date_str@),
        r matches Ok(p) ==> p.0 == date_value(date_str@).0 && p.1 == date_value(date_str@).1,
        r matches Err(e) ==> date_error_matches(date_str@, e),
{
    let ghost s = date_str@;
    let n: usize = date_str.unicode_len();
    let mut count: usize = 0;
    let mut hy1: usize = 0;
    let mut hy2: usize = 0;
    let mut i: usize = 0;
    while i < n
        invariant
            0 <= i <= n,
            n == s.len(),
            s == date_str@,
            count == 0 ==> forall|j: int| 0 <= j < i ==> s[j] != '-',
            count == 1 ==> hy1 < i && s[hy1 as int] == '-' && (forall|j: int|
                0 <= j < i && j != hy1 ==> s[j] != '-'),
            count >= 2 ==> hy1 < hy2 < i && s[hy1 as int] == '-' && s[hy2 as int] == '-',
        decreases n - i,
    {
        let c: char = date_str.get_char(i);
        if c == '-' {
            if count == 0 {
                hy1 = i;
            } else if count == 1 {
                hy2 = i;
            }
            if count < 2 {
                count = count + 1;
            }
        }
        i = i + 1;
    }
    if count != 1 {
        proof {
            assert forall|k: int| !splits_once_at(s, k) by {
                if splits_once_at(s, k) {
                    if count == 0 {
                        assert(s[k] != '-');
                    } else {
                        if k != hy1 {
                            assert(s[hy1 as int] != '-');
                        } else {
                            assert(s[hy2 as int] != '-');
                        }
                    }
                }
            }
            assert(!well_formed_date(s));
        }
        return Err(TlcError::InvalidDate(String::from_str("Expected YYYY-MM")));
    }
    proof {
        assert(splits_once_at(s, hy1 as int));
        assert(well_formed_date(s));
        let i0 = hyphen_at(s);
        assert(splits_once_at(s, i0));
        if i0 != hy1 {
            assert(s[i0] != '-');
        }
        assert(i0 == hy1 as int);
    }
    let year_str: &str = date_str.substring_char(0, hy1);
    let month_str: &str = date_str.substring_char(hy1 + 1, n);
    proof {
        assert(year_str@ == year_part(s));
        assert(month_str@ == month_part(s));
    }
    let year: i32 = match parse_number(year_str) {
        Some(v) => v,
        None => {
            return Err(TlcError::InvalidDate(String::from_str("Invalid year")));
        },
    };
    let month: i32 = match parse_number(month_str) {
        Some(v) => v,
        None => {
            return Err(TlcError::InvalidDate(String::from_str("Invalid month")));
        },
    };
    if month < 1 || month > 12 {
        return Err(TlcError::InvalidMonth(month));
    }
    Ok((year, month))
}

/// The rank of a (year, month) key when months are counted from the
/// start of year zero.
pub open spec fn month_index(y: int, m: int) -> int {
    12 * y + (m - 1)
}

/// The (year, month) key of rank `n`.
pub open spec fn month_key(n: int) -> (i32, i32)
    recommends
        0 <= n,
        n / 12 <= i32::MAX,
{
    ((n / 12) as i32, (n % 12 + 1) as i32)
}

/// Lexicographic order on (year, month) keys.
pub open spec fn key_lt(a: (i32, i32), b: (i32, i32)) -> bool {
    a.0 < b.0 || (a.0 == b.0 && a.1 < b.1)
}

/// Expands two `YYYY-MM` strings into the closed interval of
/// (year, month) keys between them, one calendar month at a time.
///
/// A start later than the end yields an empty list, not an error;
/// a string that does not parse yields that string's parse error,
/// the start checked first.
pub fn generate_date_range(start: &str, end: &str) -> (r: Result<Vec<(i32, i32)>, TlcError>)
    ensures
        r is Ok <==> date_parses(start@) && date_parses(end@),
        !date_parses(start@) ==> (r matches Err(e) && date_error_matches(start@, e)),
        date_parses(start@) && !date_parses(end@) ==> (r matches Err(e) && date_error_matches(
            end@,
            e,
        )),
        r matches Ok(dates) ==> {
            let lo = month_index(date_value(start@).0, date_value(start@).1);
            let hi = month_index(date_value(end@).0, date_value(end@).1);
            &&& lo > hi ==> dates@.len() == 0
            &&& lo <= hi ==> dates@.len() == hi - lo + 1
            &&& forall|k: int| 0 <= k < dates@.len() ==> dates@[k] == month_key(lo + k)
        },
{
    let (start_year, start_month) = match parse_date(start) {
        Ok(p) => p,
        Err(e) => {
            return Err(e);
        },
    };
    let (end_year, end_month) = match parse_date(end) {
        Ok(p) => p,
        Err(e) => {
            return Err(e);
        },
    };
    proof {
        lemma_parsed_value_nonneg(year_part(start@));
        lemma_parsed_value_nonneg(year_part(end@));
    }
    let lo: i64 = 12 * (start_year as i64) + ((start_month - 1) as i64);
    let hi: i64 = 12 * (end_year as i64) + ((end_month - 1) as i64);
    let mut dates: Vec<(i32, i32)> = Vec::new();
    let mut idx: i64 = lo;
    while idx <= hi
        invariant
            lo <= idx,
            idx <= hi + 1 || idx == lo,
            0 <= lo,
            hi <= 12 * (i32::MAX as int) + 11,
            dates@.len() == idx - lo,
            forall|k: int| 0 <= k < dates@.len() ==> dates@[k] == month_key(lo + k),
        decreases hi + 1 - idx,
    {
        let year: i32 = (idx / 12) as i32;
        let month: i32 = ((idx % 12) + 1) as i32;
        dates.push((year, month));
        idx = idx + 1;
    }
    Ok(dates)
}

/// Every month of an expanded range lies in 1..=12 and every year is
/// non-negative, and the keys are strictly increasing: the range
/// steps one calendar month at a time and never repeats or reorders.
pub proof fn lemma_range_strictly_increasing(dates: Seq<(i32, i32)>, lo: int)
    requires
        0 <= lo,
        lo + dates.len() <= 12 * (i32::MAX as int) + 12,
        forall|k: int| 0 <= k < dates.len() ==> dates[k] == month_key(lo + k),
    ensures
        forall|k: int|
            0 <= k < dates.len() ==> 0 <= (#[trigger] dates[k]).0 && 1 <= dates[k].1 <= 12,
        forall|i: int, j: int| 0 <= i < j < dates.len() ==> key_lt(dates[i], dates[j]),
{
    assert forall|k: int| 0 <= k < dates.len() implies 0 <= (#[trigger] dates[k]).0 && 1
        <= dates[k].1 <= 12 by {
        let n = lo + k;
        assert(0 <= n / 12 <= i32::MAX);
        assert(0 <= n % 12 < 12);
    }
    assert forall|i: int, j: int| 0 <= i < j < dates.len() implies key_lt(dates[i], dates[j]) by {
        let a = lo + i;
        let b = lo + j;
        assert(0 <= a / 12 <= i32::MAX && 0 <= a % 12 < 12);
        assert(0 <= b / 12 <= i32::MAX && 0 <= b % 12 < 12);
        assert(a == 12 * (a / 12) + a % 12);
        assert(b == 12 * (b / 12) + b % 12);
        assert(a / 12 <= b / 12) by {
            if a / 12 > b / 12 {
                assert(12 * (a / 12) >= 12 * (b / 12) + 12);
            }
        }
        if a / 12 == b / 12 {
            assert(a % 12 < b % 12);
        }
    }
}

/// The characters between the dataset kind and the date in every
/// planned name.
pub open spec fn tripdata_infix() -> Seq<char> {
    seq!['_', 't', 'r', 'i', 'p', 'd', 'a', 't', 'a', '_']
}

/// The extension that ends every planned name.
pub open spec fn parquet_suffix() -> Seq<char> {
    seq!['.', 'p', 'a', 'r', 'q', 'u', 'e', 't']
}

/// The fixed remote host and path every task's name is planned under.
pub open spec fn host_prefix() -> Seq<char> {
    "https://d37ci6vzurychx.cloudfront.net/trip-data/"@
}

/// The local file name planned for one (kind, year, month) task.
pub open spec fn filename_chars(kind: Seq<char>, year: int, month: int) -> Seq<char> {
    kind + tripdata_infix() + int_chars(year) + seq!['-'] + month2_chars(month) + parquet_suffix()
}

/// The remote name planned for one (kind, year, month) task.
pub open spec fn url_chars(kind: Seq<char>, year: int, month: int) -> Seq<char> {
    host_prefix() + filename_chars(kind, year, month)
}

/// The characters of a planned name after the dataset kind and the
/// infix: the year, a hyphen, the padded month, and the extension.
pub open spec fn name_tail(year: int, month: int) -> Seq<char> {
    int_chars(year) + seq!['-'] + month2_chars(month) + parquet_suffix()
}

/// No character after the infix of a planned name is an underscore,
/// so the last underscore of the whole name ends the infix.
proof fn lemma_tail_no_underscore(year: int, month: int)
    requires
        0 <= year,
        1 <= month <= 12,
    ensures
        forall|i: int| 0 <= i < name_tail(year, month).len() ==> name_tail(year, month)[i] != '_',
{
    let t = name_tail(year, month);
    let dd = dec_digits(year as nat);
    let m2 = month2_chars(month);
    lemma_dec_digits_are_digits(year as nat);
    lemma_month2_shape(month);
    assert forall|i: int| 0 <= i < t.len() implies t[i] != '_' by {
        if i < dd.len() {
            assert(t[i] == dd[i]);
            assert(is_digit(dd[i]));
        } else if i == dd.len() {
            assert(t[i] == '-');
        } else if i < dd.len() + 1 + 2 {
            assert(t[i] == m2[i - dd.len() - 1]);
            assert(is_digit(m2[i - dd.len() - 1]));
        } else {
            assert(t[i] == parquet_suffix()[i - dd.len() - 3]);
        }
    }
}

/// The year and month can be read back from the tail of a planned
/// name: distinct (year, month) pairs give distinct tails.
proof fn lemma_tail_injective(y1: int, m1: int, y2: int, m2: int)
    requires
        0 <= y1,
        0 <= y2,
        1 <= m1 <= 12,
        1 <= m2 <= 12,
        name_tail(y1, m1) == name_tail(y2, m2),
    ensures
        y1 == y2,
        m1 == m2,
{
    let t = name_tail(y1, m1);
    let dd1 = dec_digits(y1 as nat);
    let dd2 = dec_digits(y2 as nat);
    lemma_month2_shape(m1);
    lemma_month2_shape(m2);
    assert(t.len() == dd1.len() + 11);
    assert(t.len() == dd2.len() + 11);
    let d = dd1.len() as int;
    assert(dd1 =~= t.subrange(0, d));
    assert(dd2 =~= t.subrange(0, d));
    lemma_dec_digits_injective(y1 as nat, y2 as nat);
    assert(month2_chars(m1) =~= t.subrange(d + 1, d + 3));
    assert(month2_chars(m2) =~= t.subrange(d + 1, d + 3));
    lemma_month2_injective(m1, m2);
}

/// Task planning is injective: two (kind, year, month) triples that
/// plan the same file name are the same triple, so no two tasks of a
/// run ever target the same path.
pub proof fn lemma_filename_injective(
    kind1: Seq<char>,
    y1: int,
    m1: int,
    kind2: Seq<char>,
    y2: int,
    m2: int,
)
    requires
        0 <= y1,
        0 <= y2,
        1 <= m1 <= 12,
        1 <= m2 <= 12,
        filename_chars(kind1, y1, m1) == filename_chars(kind2, y2, m2),
    ensures
        kind1 == kind2,
        y1 == y2,
        m1 == m2,
{
    let f = filename_chars(kind1, y1, m1);
    let t1 = name_tail(y1, m1);
    let t2 = name_tail(y2, m2);
    assert(f =~= kind1 + tripdata_infix() + t1);
    assert(f =~= kind2 + tripdata_infix() + t2);
    lemma_tail_no_underscore(y1, m1);
    lemma_tail_no_underscore(y2, m2);
    lemma_dec_digits_len(y1 as nat);
    lemma_dec_digits_len(y2 as nat);
    let l1 = kind1.len() as int;
    let l2 = kind2.len() as int;
    if l1 < l2 {
        let pos = l2 + 9;
        assert(f[pos] == tripdata_infix()[9]);
        assert(f[pos] == t1[pos - l1 - 10]);
        assert(false);
    }
    if l2 < l1 {
        let pos = l1 + 9;
        assert(f[pos] == tripdata_infix()[9]);
        assert(f[pos] == t2[pos - l2 - 10]);
        assert(false);
    }
    assert(kind1 =~= f.subrange(0, l1));
    assert(kind2 =~= f.subrange(0, l1));
    assert(t1 =~= f.subrange(l1 + 10, f.len() as int));
    assert(t2 =~= f.subrange(l1 + 10, f.len() as int));
    lemma_tail_injective(y1, m1, y2, m2);
}

/// Builds the local file name for one task: the dataset kind, the
/// year, and the zero-padded month around the fixed infix and
/// extension.
pub fn generate_filename(kind: &str, year: i32, month: i32) -> (r: String)
    ensures
        r@ == filename_chars(kind@, year as int, month as int),
{
    let mut s: String = String::from_str(kind);
    s.append("_tripdata_");
    proof {
        reveal_strlit("_tripdata_");
        assert("_tripdata_"@ =~= tripdata_infix());
    }
    push_i32(&mut s, year);
    s.append("-");
    proof {
        reveal_strlit("-");
        assert("-"@ =~= seq!['-']);
    }
    push_month2(&mut s, month);
    s.append(".parquet");
    proof {
        reveal_strlit(".parquet");
        assert(".parquet"@ =~= parquet_suffix());
        assert(s@ =~= filename_chars(kind@, year as int, month as int));
    }
    s
}

/// Builds the remote name for one task: the fixed host and path,
/// then the same name the file is stored under locally.
pub fn generate_url(kind: &str, year: i32, month: i32) -> (r: String)
    ensures
        r@ == url_chars(kind@, year as int, month as int),
{
    let name: String = generate_filename(kind, year, month);
    let mut s: String = String::from_str("https://d37ci6vzurychx.cloudfront.net/trip-data/");
    s.append(name.as_str());
    s
}

} // verus!
