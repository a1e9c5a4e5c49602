//! Decimal text of integers: formatting as `to_string` does and parsing as
//! `str::parse::<i64>` does.
use vstd::prelude::*;
use crate::text::push_char;

verus! {

/// The ASCII digit for `d` (0 to 9).
pub open spec fn digit_char(d: int) -> char {
    if d == 0 {
        '0'
    } else if d == 1 {
        '1'
    } else if d == 2 {
        '2'
    } else if d == 3 {
        '3'
    } else if d == 4 {
        '4'
    } else if d == 5 {
        '5'
    } else if d == 6 {
        '6'
    } else if d == 7 {
        '7'
    } else if d == 8 {
        '8'
    } else {
        '9'
    }
}

/// Decimal digits of `n`, without leading zeros.
pub open spec fn decimal_digits(n: nat) -> Seq<char>
    decreases n,
{
    if n < 10 {
        seq![digit_char(n as int)]
    } else {
        decimal_digits(n / 10).push(digit_char((n % 10) as int))
    }
}

/// Decimal text of `n`, with a leading `-` when negative.
pub open spec fn decimal_text(n: int) -> Seq<char> {
    if n < 0 {
        seq!['-'] + decimal_digits((-n) as nat)
    } else {
        decimal_digits(n as nat)
    }
}

fn digit(d: u64) -> (c: char)
    requires
        d < 10,
    ensures
        c == digit_char(d as int),
{
    if d == 0 {
        '0'
    } else if d == 1 {
        '1'
    } else if d == 2 {
        '2'
    } else if d == 3 {
        '3'
    } else if d == 4 {
        '4'
    } else if d == 5 {
        '5'
    } else if d == 6 {
        '6'
    } else if d == 7 {
        '7'
    } else if d == 8 {
        '8'
    } else {
        '9'
    }
}

/// Appends the decimal digits of `n`.
pub fn push_decimal(out: &mut String, n: u64)
    ensures
        final(out)@ == old(out)@ + decimal_digits(n as nat),
    decreases n,
{
    if n >= 10 {
        push_decimal(out, n / 10);
        push_char(out, digit(n % 10));
        assert(decimal_digits(n as nat) == decimal_digits((n / 10) as nat).push(
            digit_char((n % 10) as int),
        ));
    } else {
        push_char(out, digit(n));
    }
}

/// Appends the decimal text of `n`.
pub fn push_decimal_i64(out: &mut String, n: i64)
    ensures
        final(out)@ == old(out)@ + decimal_text(n as int),
{
    if n < 0 {
        push_char(out, '-');
        let magnitude: u64 = (0i128 - (n as i128)) as u64;
        push_decimal(out, magnitude);
        assert(old(out)@.push('-') + decimal_digits(magnitude as nat) =~= old(out)@ + (seq!['-']
            + decimal_digits(magnitude as nat)));
    } else {
        push_decimal(out, n as u64);
    }
}

/// The decimal text of `n`, as `n.to_string()`.
pub fn format_i64(n: i64) -> (s: String)
    ensures
        s@ == decimal_text(n as int),
{
    let mut s = String::new();
    push_decimal_i64(&mut s, n);
    assert(Seq::<char>::empty() + decimal_text(n as int) =~= decimal_text(n as int));
    s
}

/// Whether `c` is an ASCII digit.
pub open spec fn is_digit(c: char) -> bool {
    '0' <= c <= '9'
}

/// The value of the ASCII digits `s`.
pub open spec fn digits_value(s: Seq<char>) -> nat
    decreases s.len(),
{
    if s.len() == 0 {
        0
    } else {
        digits_value(s.drop_last()) * 10 + ((s.last() as u32 - 48) as nat)
    }
}

/// All characters are ASCII digits.
pub open spec fn all_digits(s: Seq<char>) -> bool {
    forall|i: int| 0 <= i < s.len() ==> is_digit(#[trigger] s[i])
}

/// Whether every character of the text is an ASCII digit.
pub fn is_all_digits(s: &str) -> (r: bool)
    ensures
        r == all_digits(s@),
{
    let v = crate::text::chars_of(s);
    let mut k: usize = 0;
    while k < v.len()
        invariant
            v@ == s@,
            k <= v@.len(),
            forall|i: int| 0 <= i < k ==> is_digit(#[trigger] v@[i]),
        decreases v.len() - k,
    {
        if !('0' <= v[k] && v[k] <= '9') {
            assert(!is_digit(v@[k as int]));
            return false;
        }
        k = k + 1;
    }
    true
}

/// What `str::parse::<i64>` gives: an optional sign, then one or more ASCII
/// digits, and a value within the range of `i64`.
pub open spec fn parse_i64_text(s: Seq<char>) -> Option<i64> {
    let neg = s.len() > 0 && s[0] == '-';
    let signed = s.len() > 0 && (s[0] == '-' || s[0] == '+');
    let ds = if signed {
        s.drop_first()
    } else {
        s
    };
    if ds.len() == 0 || !all_digits(ds) {
        None
    } else {
        let v: int = if neg {
            -(digits_value(ds) as int)
        } else {
            digits_value(ds) as int
        };
        if i64::MIN <= v <= i64::MAX {
            Some(v as i64)
        } else {
            None
        }
    }
}

proof fn lemma_digit_char(d: int)
    requires
        0 <= d < 10,
    ensures
        is_digit(digit_char(d)),
        (digit_char(d) as u32 - 48) as nat == d,
{
}

proof fn lemma_decimal_digits(n: nat)
    ensures
        decimal_digits(n).len() > 0,
        all_digits(decimal_digits(n)),
        digits_value(decimal_digits(n)) == n,
    decreases n,
{
    let s = decimal_digits(n);
    if n >= 10 {
        lemma_decimal_digits(n / 10);
        lemma_digit_char((n % 10) as int);
        assert(s.drop_last() =~= decimal_digits(n / 10));
        assert(s.last() == digit_char((n % 10) as int));
        assert((n / 10) * 10 + n % 10 == n) by (nonlinear_arith);
        assert(digits_value(s) == digits_value(s.drop_last()) * 10 + ((s.last() as u32 - 48) as nat));
        assert forall|i: int| 0 <= i < s.len() implies is_digit(#[trigger] s[i]) by {
            if i < s.len() - 1 {
                assert(s[i] == decimal_digits(n / 10)[i]);
            }
        }
    } else {
        lemma_digit_char(n as int);
        assert(s.drop_last() =~= Seq::<char>::empty());
        assert(digits_value(s.drop_last()) == 0);
        assert(digits_value(s) == digits_value(s.drop_last()) * 10 + ((s.last() as u32 - 48) as nat));
    }
}

/// The decimal text of a number starts and ends with a character that is
/// not white space.
pub proof fn lemma_decimal_text_ends(n: int)
    ensures
        decimal_text(n).len() > 0,
        is_digit(decimal_text(n).last()),
        decimal_text(n)[0] == '-' || is_digit(decimal_text(n)[0]),
{
    if n < 0 {
        lemma_decimal_digits((-n) as nat);
    } else {
        lemma_decimal_digits(n as nat);
    }
}

/// Parsing the decimal text of a number, as `str::parse::<i64>` does, gives
/// the number back.
pub proof fn decimal_text_parses_back(n: i64)
    ensures
        parse_i64_text(decimal_text(n as int)) == Some(n),
{
    let s = decimal_text(n as int);
    if n < 0 {
        let ds = decimal_digits((-n) as nat);
        lemma_decimal_digits((-n) as nat);
        assert(s.drop_first() =~= ds);
    } else {
        lemma_decimal_digits(n as nat);
    }
}

proof fn lemma_digits_value_step(s: Seq<char>, k: int)
    requires
        0 <= k < s.len(),
    ensures
        digits_value(s.subrange(0, k + 1)) == digits_value(s.subrange(0, k)) * 10 + ((s[k] as u32
            - 48) as nat),
{
    assert(s.subrange(0, k + 1).drop_last() =~= s.subrange(0, k));
}

/// Parses decimal text as `str::parse::<i64>` does.
pub fn parse_i64(text: &str) -> (r: Option<i64>)
    ensures
        r == parse_i64_text(text@),
{
    let v = crate::text::chars_of(text);
    let n = v.len();
    let neg = n > 0 && v[0] == '-';
    let signed = n > 0 && (v[0] == '-' || v[0] == '+');
    let start: usize = if signed {
        1
    } else {
        0
    };
    let ghost ds = if signed {
        v@.drop_first()
    } else {
        v@
    };
    assert(ds =~= v@.subrange(start as int, n as int));
    if start == n {
        return None;
    }
    let cap: u128 = 9223372036854775808;
    let mut acc: u128 = 0;
    let mut big = false;
    let mut k = start;
    while k < n
        invariant
            start <= k <= n == v@.len(),
            v@ == text@,
            ds == v@.subrange(start as int, n as int),
            cap == 9223372036854775808u128,
            signed == (text@.len() > 0 && (text@[0] == '-' || text@[0] == '+')),
            ds == (if signed {
                text@.drop_first()
            } else {
                text@
            }),
            all_digits(v@.subrange(start as int, k as int)),
            big ==> digits_value(v@.subrange(start as int, k as int)) > cap,
            !big ==> acc == digits_value(v@.subrange(start as int, k as int)) && acc <= cap,
        decreases n - k,
    {
        let c = v[k];
        if !('0' <= c && c <= '9') {
            proof {
                assert(ds[k - start] == c);
                assert(!is_digit(ds[k - start]));
                assert(!all_digits(ds));
            }
            return None;
        }
        proof {
            let sub = v@.subrange(start as int, n as int);
            lemma_digits_value_step(sub, k - start);
            assert(sub.subrange(0, k - start + 1) =~= v@.subrange(start as int, k + 1));
            assert(sub.subrange(0, k - start) =~= v@.subrange(start as int, k as int));
            assert forall|i: int| 0 <= i < v@.subrange(start as int, k + 1).len() implies is_digit(
                #[trigger] v@.subrange(start as int, k + 1)[i],
            ) by {
                if i < k - start {
                    assert(v@.subrange(start as int, k + 1)[i] == v@.subrange(
                        start as int,
                        k as int,
                    )[i]);
                }
            }
        }
        if !big {
            let d = (c as u32 - 48) as u128;
            assert(acc * 10 <= 92233720368547758080u128) by (nonlinear_arith)
                requires
                    acc <= 9223372036854775808u128,
            ;
            let next = acc * 10 + d;
            if next > cap {
                big = true;
            } else {
                acc = next;
            }
        }
        k = k + 1;
    }
    assert(v@.subrange(start as int, n as int) =~= ds);
    if big {
        return None;
    }
    if neg {
        let value: i128 = 0 - (acc as i128);
        Some(value as i64)
    } else {
        if acc > 9223372036854775807 {
            None
        } else {
            Some(acc as i64)
        }
    }
}

} // verus!
