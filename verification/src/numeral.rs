//! Decimal numerals: reading a count argument and printing a count.
//!
//! A count argument is accepted exactly when it is a non-empty run of ASCII
//! digits whose value fits in `usize`; anything else (signs, spaces inside
//! the token, other characters, too-large values) is rejected.

use vstd::prelude::*;

verus! {

/// Whether `c` is an ASCII decimal digit.
pub open spec fn is_digit(c: char) -> bool {
    '0' <= c && c <= '9'
}

/// The numeric value of the digit `c`.
pub open spec fn digit_val(c: char) -> nat {
    (c as nat - '0' as nat) as nat
}

/// The digit character for `d` (meaningful for `d < 10`).
pub open spec fn digit_char(d: nat) -> char {
    (('0' as nat + d) as char)
}

/// Whether every character of `s` is an ASCII digit.
pub open spec fn all_digits(s: Seq<char>) -> bool {
    forall|i: int| 0 <= i < s.len() ==> is_digit(#[trigger] s[i])
}

/// The value of the digit string `s`, read in base ten.
pub open spec fn digits_value(s: Seq<char>) -> nat
    decreases s.len(),
{
    if s.len() == 0 {
        0
    } else {
        digits_value(s.drop_last()) * 10 + digit_val(s.last())
    }
}

/// Whether the token `s` is an acceptable count: a non-empty digit run whose
/// value fits in `usize`.
pub open spec fn is_count_token(s: Seq<char>) -> bool {
    s.len() > 0 && all_digits(s) && digits_value(s) <= usize::MAX
}

/// The decimal numeral of `n`: its base-ten digits, most significant first,
/// with no leading zeros (and `0` itself written as one digit).
pub open spec fn spec_decimal(n: nat) -> Seq<char>
    decreases n,
{
    if n < 10 {
        seq![digit_char(n)]
    } else {
        spec_decimal(n / 10) + seq![digit_char(n % 10)]
    }
}

/// A digit string's value only grows as more digits follow: the value of a
/// prefix never exceeds the value of the whole string.
pub proof fn lemma_digits_value_prefix(s: Seq<char>, i: int)
    requires
        0 <= i <= s.len(),
    ensures
        digits_value(s.take(i)) <= digits_value(s),
    decreases s.len() - i,
{
    if i < s.len() {
        assert(s.take(i + 1).drop_last() =~= s.take(i));
        assert(s.take(i + 1).last() == s[i]);
        assert(digits_value(s.take(i)) <= digits_value(s.take(i)) * 10 + digit_val(s.take(
            i + 1,
        ).last()));
        lemma_digits_value_prefix(s, i + 1);
    } else {
        assert(s.take(i) =~= s);
    }
}

/// Reads the token `s` as a count. Returns the value exactly when `s` is a
/// non-empty run of ASCII digits whose value fits in `usize`; returns
/// `None` for every other token.
pub fn parse_count(s: &str) -> (r: Option<usize>)
    ensures
        r is Some <==> is_count_token(s@),
        r is Some ==> r.unwrap() == digits_value(s@),
{
    let len = s.unicode_len();
    if len == 0 {
        return None;
    }
    let mut acc: usize = 0;
    let mut i: usize = 0;
    while i < len
        invariant
            0 <= i <= len,
            len == s@.len(),
            all_digits(s@.take(i as int)),
            acc == digits_value(s@.take(i as int)),
        decreases len - i,
    {
        let c = s.get_char(i);
        if c < '0' || c > '9' {
            assert(!is_digit(s@[i as int]));
            return None;
        }
        let d: usize = (c as u32 - '0' as u32) as usize;
        proof {
            assert(s@.take(i as int + 1).drop_last() =~= s@.take(i as int));
            assert(s@.take(i as int + 1).last() == s@[i as int]);
        }
        if acc > (usize::MAX - d) / 10 {
            proof {
                let m = (usize::MAX - d) as int;
                assert(m == (m / 10) * 10 + m % 10 && 0 <= m % 10 < 10);
                assert(acc * 10 >= (m / 10 + 1) * 10) by (nonlinear_arith)
                    requires
                        acc >= m / 10 + 1,
                ;
                assert(digits_value(s@.take(i as int + 1)) > usize::MAX);
                lemma_digits_value_prefix(s@, i as int + 1);
            }
            return None;
        }
        proof {
            let m = (usize::MAX - d) as int;
            assert(m == (m / 10) * 10 + m % 10 && 0 <= m % 10 < 10);
            assert(acc * 10 <= (m / 10) * 10) by (nonlinear_arith)
                requires
                    acc <= m / 10,
            ;
        }
        acc = acc * 10 + d;
        i = i + 1;
    }
    proof {
        assert(s@.take(len as int) =~= s@);
    }
    Some(acc)
}

/// Every character of a decimal numeral is a digit.
pub proof fn lemma_decimal_digits(n: nat)
    ensures
        spec_decimal(n).len() >= 1,
        all_digits(spec_decimal(n)),
    decreases n,
{
    if n >= 10 {
        lemma_decimal_digits(n / 10);
    }
}

/// The digit characters of `n`, most significant first.
pub fn decimal_digits(n: usize) -> (v: Vec<char>)
    ensures
        v@ == spec_decimal(n as nat),
{
    let mut rev: Vec<char> = Vec::new();
    let mut cur = n;
    while cur >= 10
        invariant
            spec_decimal(n as nat) == spec_decimal(cur as nat) + rev@.reverse(),
        decreases cur,
    {
        let d = cur % 10;
        let c = digit_of(d);
        proof {
            let old_rev = rev@;
            assert((rev@ + seq![c]).reverse() =~= seq![c] + old_rev.reverse());
            assert(spec_decimal(cur as nat) == spec_decimal(cur as nat / 10) + seq![c]);
            assert(spec_decimal(cur as nat / 10) + (seq![c] + old_rev.reverse()) =~= (spec_decimal(
                cur as nat / 10,
            ) + seq![c]) + old_rev.reverse());
        }
        rev.push(c);
        cur = cur / 10;
    }
    let c = digit_of(cur);
    proof {
        let old_rev = rev@;
        assert((rev@ + seq![c]).reverse() =~= seq![c] + old_rev.reverse());
        assert(spec_decimal(cur as nat) == seq![c]);
    }
    rev.push(c);
    let mut v: Vec<char> = Vec::new();
    let mut i = rev.len();
    while i > 0
        invariant
            0 <= i <= rev@.len(),
            v@ =~= rev@.subrange(i as int, rev@.len() as int).reverse(),
        decreases i,
    {
        i = i - 1;
        let c = rev[i];
        proof {
            assert(rev@.subrange(i as int, rev@.len() as int) =~= seq![rev@[i as int]]
                + rev@.subrange(i as int + 1, rev@.len() as int));
            assert(rev@.subrange(i as int, rev@.len() as int).reverse() =~= rev@.subrange(
                i as int + 1,
                rev@.len() as int,
            ).reverse() + seq![rev@[i as int]]);
        }
        v.push(c);
    }
    proof {
        assert(rev@.subrange(0, rev@.len() as int) =~= rev@);
        assert(v@ =~= rev@.reverse());
    }
    v
}

/// The digit character for `d < 10`.
pub fn digit_of(d: usize) -> (c: char)
    requires
        d < 10,
    ensures
        c == digit_char(d as nat),
{
    if d == 0 {
        '0'
    } else if d == 1 {
        '1'
    } else if d == 2 {
        '2'
    } else if d == 3 {
        '3'
    } else if d == 4 {
        '4'
    } else if d == 5 {
        '5'
    } else if d == 6 {
        '6'
    } else if d == 7 {
        '7'
    } else if d == 8 {
        '8'
    } else {
        '9'
    }
}

/// The string slice holding the single digit `c`.
pub fn digit_str(c: char) -> (s: &'static str)
    requires
        is_digit(c),
    ensures
        s@ =~= seq![c],
{
    proof {
        reveal_strlit("0");
        reveal_strlit("1");
        reveal_strlit("2");
        reveal_strlit("3");
        reveal_strlit("4");
        reveal_strlit("5");
        reveal_strlit("6");
        reveal_strlit("7");
        reveal_strlit("8");
        reveal_strlit("9");
    }
    if c == '0' {
        "0"
    } else if c == '1' {
        "1"
    } else if c == '2' {
        "2"
    } else if c == '3' {
        "3"
    } else if c == '4' {
        "4"
    } else if c == '5' {
        "5"
    } else if c == '6' {
        "6"
    } else if c == '7' {
        "7"
    } else if c == '8' {
        "8"
    } else {
        "9"
    }
}

/// Joins a digit vector into a string with the same characters.
pub fn digits_to_string(digits: &Vec<char>) -> (s: String)
    requires
        all_digits(digits@),
    ensures
        s@ == digits@,
{
    let mut s = String::new();
    let mut i: usize = 0;
    while i < digits.len()
        invariant
            0 <= i <= digits@.len(),
            all_digits(digits@),
            s@ =~= digits@.take(i as int),
        decreases digits@.len() - i,
    {
        let part = digit_str(digits[i]);
        proof {
            assert(digits@.take(i as int + 1) =~= digits@.take(i as int) + seq![
                digits@[i as int],
            ]);
        }
        s.append(part);
        i = i + 1;
    }
    proof {
        assert(digits@.take(digits@.len() as int) =~= digits@);
    }
    s
}

/// Renders `n` in decimal.
pub fn decimal_string(n: usize) -> (s: String)
    ensures
        s@ == spec_decimal(n as nat),
{
    let digits = decimal_digits(n);
    proof {
        lemma_decimal_digits(n as nat);
    }
    digits_to_string(&digits)
}

} // verus!
