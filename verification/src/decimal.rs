//! Integers as decimal text.

use crate::text::chars_of;
use vstd::prelude::*;
use vstd::string::*;

verus! {

/// Whether `c` is one of the ten ASCII digits.
pub open spec fn is_digit(c: char) -> bool {
    '0' <= c <= '9'
}

/// The value of an ASCII digit.
pub open spec fn digit_value(c: char) -> nat {
    (c as u32 - '0' as u32) as nat
}

/// The ASCII digit of a value below ten.
pub open spec fn digit_char(d: nat) -> char {
    ('0' as u32 + d) as char
}

/// Whether `s` is one or more ASCII digits.
pub open spec fn is_digits(s: Seq<char>) -> bool {
    &&& s.len() > 0
    &&& forall|i: int| 0 <= i < s.len() ==> is_digit(#[trigger] s[i])
}

/// The number that a sequence of digits writes in base ten.
pub open spec fn digits_value(s: Seq<char>) -> nat
    decreases s.len(),
{
    if s.len() == 0 {
        0
    } else {
        digits_value(s.drop_last()) * 10 + digit_value(s.last())
    }
}

/// `n` in base ten, without leading zeros.
pub open spec fn decimal_text(n: nat) -> Seq<char>
    decreases n,
{
    if n < 10 {
        seq![digit_char(n)]
    } else {
        decimal_text(n / 10).push(digit_char(n % 10))
    }
}

/// `n` in base ten, with a minus sign if it is negative.
pub open spec fn signed_text(n: int) -> Seq<char> {
    if n < 0 {
        seq!['-'] + decimal_text((-n) as nat)
    } else {
        decimal_text(n as nat)
    }
}

/// The digits of `s` behind an optional sign.
pub open spec fn unsigned_part(s: Seq<char>) -> Seq<char> {
    if s.len() > 0 && (s[0] == '-' || s[0] == '+') {
        s.skip(1)
    } else {
        s
    }
}

/// The integer that `s` writes: an optional sign and then digits only, within the range of `i64`.
pub open spec fn i64_value(s: Seq<char>) -> Option<i64> {
    let digits = unsigned_part(s);
    let n = if s.len() > 0 && s[0] == '-' {
        -(digits_value(digits) as int)
    } else {
        digits_value(digits) as int
    };
    if is_digits(digits) && i64::MIN <= n <= i64::MAX {
        Some(n as i64)
    } else {
        None
    }
}

/// Writing a number and reading its digits gives the number back.
pub proof fn lemma_decimal_text(n: nat)
    ensures
        is_digits(decimal_text(n)),
        digits_value(decimal_text(n)) == n,
    decreases n,
{
    if n < 10 {
        let s = decimal_text(n);
        assert(s.drop_last() =~= Seq::empty());
        assert(digits_value(s.drop_last()) == 0);
    } else {
        lemma_decimal_text(n / 10);
        let s = decimal_text(n);
        assert(s.drop_last() =~= decimal_text(n / 10));
    }
}

/// Different numbers are written differently.
pub proof fn lemma_decimal_text_injective(m: nat, n: nat)
    requires
        decimal_text(m) == decimal_text(n),
    ensures
        m == n,
{
    lemma_decimal_text(m);
    lemma_decimal_text(n);
}

/// Reading the text of an integer of 64 bits gives the integer back.
pub proof fn lemma_signed_text(n: i64)
    ensures
        i64_value(signed_text(n as int)) == Some(n),
{
    if n < 0 {
        lemma_decimal_text((-(n as int)) as nat);
        assert(signed_text(n as int).skip(1) =~= decimal_text((-(n as int)) as nat));
    } else {
        lemma_decimal_text(n as nat);
        let s = decimal_text(n as nat);
        assert(is_digit(s[0]));
    }
}

/// The integer that `s` writes: an optional sign and then digits only, within the range of `i64`.
pub fn parse_i64(s: &str) -> (r: Option<i64>)
    ensures
        r == i64_value(s@),
{
    let cs = chars_of(s);
    let negative: bool = cs.len() > 0 && cs[0] == '-';
    let start: usize = if cs.len() > 0 && (cs[0] == '-' || cs[0] == '+') {
        1
    } else {
        0
    };
    let ghost digits = unsigned_part(s@);
    assert(digits =~= s@.skip(start as int));
    if cs.len() == start {
        return None;
    }
    let limit: i128 = 0x8000_0000_0000_0000;
    let mut n: i128 = 0;
    let mut i: usize = start;
    while i < cs.len()
        invariant
            start <= i <= cs.len(),
            cs@ == s@,
            digits == s@.skip(start as int),
            digits == unsigned_part(s@),
            limit == 0x8000_0000_0000_0000,
            0 <= n <= limit + 1,
            n <= limit ==> n == digits_value(digits.take(i - start)),
            n > limit ==> digits_value(digits.take(i - start)) > limit,
            forall|k: int| 0 <= k < i - start ==> is_digit(#[trigger] digits[k]),
        decreases cs.len() - i,
    {
        let c = cs[i];
        assert(c == digits[i - start]);
        if !('0' <= c && c <= '9') {
            assert(!is_digit(digits[i - start]));
            return None;
        }
        let d: i128 = ((c as u8) - 48u8) as i128;
        proof {
            let t = digits.take(i + 1 - start);
            assert(t.drop_last() =~= digits.take(i - start));
            assert(t.last() == c);
        }
        if n <= limit {
            let m: i128 = n * 10 + d;
            n = if m <= limit { m } else { limit + 1 };
        }
        i = i + 1;
    }
    assert(digits.take(cs.len() - start) =~= digits);
    if negative {
        if n <= limit {
            Some((0 - n) as i64)
        } else {
            None
        }
    } else if n < limit {
        Some(n as i64)
    } else {
        None
    }
}

fn digit_text(d: u64) -> (r: &'static str)
    requires
        d < 10,
    ensures
        r@ == seq![digit_char(d as nat)],
{
    proof {
        reveal_strlit("0");
        reveal_strlit("1");
        reveal_strlit("2");
        reveal_strlit("3");
        reveal_strlit("4");
        reveal_strlit("5");
        reveal_strlit("6");
        reveal_strlit("7");
        reveal_strlit("8");
        reveal_strlit("9");
    }
    let r = match d {
        0 => "0",
        1 => "1",
        2 => "2",
        3 => "3",
        4 => "4",
        5 => "5",
        6 => "6",
        7 => "7",
        8 => "8",
        _ => "9",
    };
    assert(r@ =~= seq![digit_char(d as nat)]);
    r
}

/// `n` in base ten, without leading zeros.
pub fn u64_text(n: u64) -> (r: String)
    ensures
        r@ == decimal_text(n as nat),
    decreases n,
{
    if n < 10 {
        digit_text(n).to_string()
    } else {
        let mut s = u64_text(n / 10);
        s.append(digit_text(n % 10));
        assert(s@ =~= decimal_text(n as nat));
        s
    }
}

/// One digit, with or without a sign, is read as its value.
pub proof fn law_one_digit_is_read(s: &str, c: char, out: Option<i64>)
    requires
        call_ensures(parse_i64, (s,), out),
        '0' <= c <= '9',
        s@ == seq![c] || s@ == seq!['+', c] || s@ == seq!['-', c],
    ensures
        s@[0] != '-' ==> out == Some((c as u32 - 48) as i64),
        s@[0] == '-' ==> out == Some((48 - c as u32) as i64),
{
    let digits = unsigned_part(s@);
    assert(digits =~= seq![c]);
    assert(digits.drop_last() =~= Seq::empty());
    assert(digits_value(digits.drop_last()) == 0);
    assert(is_digit(digits[0]));
}

proof fn lemma_one_more_digit(a: Seq<char>, c: char)
    requires
        i64_value(a) is Some,
        is_digit(c),
    ensures
        unsigned_part(a.push(c)) == unsigned_part(a).push(c),
        is_digits(unsigned_part(a.push(c))),
        digits_value(unsigned_part(a.push(c))) == digits_value(unsigned_part(a)) * 10 + digit_value(c),
        a.len() > 0,
        a.push(c)[0] == a[0],
{
    let d = unsigned_part(a);
    assert(unsigned_part(a.push(c)) =~= d.push(c));
    assert(d.push(c).drop_last() =~= d);
    assert forall|i: int| 0 <= i < d.push(c).len() implies is_digit(#[trigger] d.push(c)[i]) by {
        if i < d.len() {
            assert(d.push(c)[i] == d[i]);
        }
    }
}

/// Another digit behind a number makes it ten times as large and adds the digit, away from zero;
/// there is no number any more where that leaves the range of `i64`.
pub proof fn law_digits_count_in_tens(a: &str, b: &str, c: char, x: i64, out: Option<i64>)
    requires
        call_ensures(parse_i64, (a,), Some(x)),
        call_ensures(parse_i64, (b,), out),
        '0' <= c <= '9',
        b@ == a@.push(c),
    ensures
        ({
            let d = c as u32 - 48;
            let n = if a@[0] == '-' {
                10 * x - d
            } else {
                10 * x + d
            };
            &&& i64::MIN <= n <= i64::MAX ==> out == Some(n as i64)
            &&& !(i64::MIN <= n <= i64::MAX) ==> out is None
        }),
{
    lemma_one_more_digit(a@, c);
}

/// A number that is too large stays so with another digit behind it.
pub proof fn law_too_large_stays_too_large(a: &str, b: &str, c: char, out: Option<i64>)
    requires
        call_ensures(parse_i64, (a,), None),
        call_ensures(parse_i64, (b,), out),
        '0' <= c <= '9',
        b@ == a@.push(c),
        a@.len() > 0,
        a@.len() > 1 || '0' <= a@[0] <= '9',
    ensures
        out is None,
{
    let d = unsigned_part(a@);
    let e = unsigned_part(b@);
    assert(e =~= d.push(c));
    assert(e.drop_last() =~= d);
    assert(d.len() > 0);
    if is_digits(e) {
        assert forall|i: int| 0 <= i < d.len() implies is_digit(#[trigger] d[i]) by {
            assert(d[i] == e[i]);
        }
    }
}

/// Without a digit, or with a character that is neither a digit nor a sign in front, a text is no
/// number.
pub proof fn law_other_text_is_no_number(s: &str, i: int, out: Option<i64>)
    requires
        call_ensures(parse_i64, (s,), out),
        s@.len() == 0 || s@.len() == 1 && (s@[0] == '+' || s@[0] == '-') || 0 <= i < s@.len() && !(
        '0' <= s@[i] <= '9') && !(i == 0 && (s@[0] == '+' || s@[0] == '-')),
    ensures
        out is None,
{
    let d = unsigned_part(s@);
    if is_digits(d) {
        let k = s@.len() - d.len();
        assert(is_digit(d[0]));
        if 0 <= i - k < d.len() {
            assert(d[i - k] == s@[i]);
            assert(is_digit(d[i - k]));
        }
    }
}

/// A number below ten is written as its digit; any other as its tenth, and behind that the digit
/// that is left over.
pub proof fn law_u64_text(n: u64, out: String, tenth: String)
    requires
        call_ensures(u64_text, (n,), out),
        call_ensures(u64_text, ((n / 10) as u64,), tenth),
    ensures
        n < 10 ==> out@ == seq![(48 + n) as char],
        n >= 10 ==> out@ == tenth@.push((48 + n % 10) as char),
{
}

} // verus!
