//! Decimal notation of integers: printing (`to_string`) and parsing (`str::parse`).

use vstd::prelude::*;
use crate::text::{chars_of, push_char};

verus! {

/// An ASCII decimal digit.
pub open spec fn is_digit(c: char) -> bool {
    '0' <= c && c <= '9'
}

/// The value of an ASCII decimal digit.
pub open spec fn digit_value(c: char) -> nat {
    ((c as u32) - ('0' as u32)) as nat
}

/// The character of a digit value below ten.
pub open spec fn digit_char(d: nat) -> char {
    (('0' as u32) + d) as char
}

/// Every character is an ASCII digit.
pub open spec fn all_digits(s: Seq<char>) -> bool {
    forall|i: int| 0 <= i < s.len() ==> is_digit(#[trigger] s[i])
}

/// The number that a string of decimal digits denotes.
pub open spec fn digits_value(s: Seq<char>) -> nat
    decreases s.len(),
{
    if s.len() == 0 {
        0
    } else {
        digits_value(s.drop_last()) * 10 + digit_value(s.last())
    }
}

/// The shortest decimal notation of `n` (what `to_string` prints).
pub open spec fn decimal_of(n: nat) -> Seq<char>
    decreases n,
{
    if n < 10 {
        seq![digit_char(n)]
    } else {
        decimal_of(n / 10).push(digit_char(n % 10))
    }
}

/// What `usize::from_str` accepts: an optional `+`, then one or more ASCII digits whose
/// value fits in `usize`.
pub open spec fn parse_usize_spec(s: Seq<char>) -> Option<usize> {
    let d = if s.len() > 0 && s[0] == '+' {
        s.drop_first()
    } else {
        s
    };
    if d.len() > 0 && all_digits(d) && digits_value(d) <= usize::MAX {
        Some(digits_value(d) as usize)
    } else {
        None
    }
}

/// The decimal notation of an `i64` (what `to_string` prints).
pub open spec fn i64_decimal(n: i64) -> Seq<char> {
    if n < 0 {
        seq!['-'] + decimal_of((-(n as int)) as nat)
    } else {
        decimal_of(n as nat)
    }
}

pub proof fn lemma_digits_value_prefix(d: Seq<char>, i: int)
    requires
        0 <= i <= d.len(),
    ensures
        digits_value(d.take(i)) <= digits_value(d),
    decreases d.len() - i,
{
    if i < d.len() {
        lemma_digits_value_prefix(d.drop_last(), i);
        assert(d.drop_last().take(i) =~= d.take(i));
    } else {
        assert(d.take(i) =~= d);
    }
}

pub proof fn lemma_decimal_of_digits(n: nat)
    ensures
        decimal_of(n).len() > 0,
        all_digits(decimal_of(n)),
        digits_value(decimal_of(n)) == n,
        decimal_of(n)[0] != '+',
        decimal_of(n)[0] != '-',
    decreases n,
{
    if n < 10 {
        assert(is_digit(digit_char(n)));
        assert(digits_value(seq![digit_char(n)]) == digits_value(Seq::<char>::empty()) * 10
            + digit_value(digit_char(n))) by {
            assert(seq![digit_char(n)].drop_last() =~= Seq::<char>::empty());
        }
    } else {
        lemma_decimal_of_digits(n / 10);
        let p = decimal_of(n / 10);
        let q = p.push(digit_char(n % 10));
        assert(q.drop_last() =~= p);
        assert(is_digit(digit_char(n % 10)));
        assert forall|i: int| 0 <= i < q.len() implies is_digit(#[trigger] q[i]) by {
            if i < p.len() {
                assert(q[i] == p[i]);
            }
        }
        assert(q[0] == p[0]);
    }
}

/// Parsing the decimal notation of a number gives the number back.
pub proof fn lemma_parse_decimal(n: usize)
    ensures
        parse_usize_spec(decimal_of(n as nat)) == Some(n),
{
    lemma_decimal_of_digits(n as nat);
}

fn digit_to_char(d: u64) -> (c: char)
    requires
        d < 10,
    ensures
        c == digit_char(d as nat),
        is_digit(c),
{
    if d == 0 { '0' }
    else if d == 1 { '1' }
    else if d == 2 { '2' }
    else if d == 3 { '3' }
    else if d == 4 { '4' }
    else if d == 5 { '5' }
    else if d == 6 { '6' }
    else if d == 7 { '7' }
    else if d == 8 { '8' }
    else { '9' }
}

/// Appends the decimal notation of `n`.
pub fn push_decimal(s: &mut String, n: u64)
    ensures
        final(s)@ == old(s)@ + decimal_of(n as nat),
    decreases n,
{
    if n >= 10 {
        push_decimal(s, n / 10);
        let c = digit_to_char(n % 10);
        push_char(s, c);
        assert(old(s)@ + decimal_of((n / 10) as nat) + seq![c] =~= old(s)@ + decimal_of(n as nat));
    } else {
        let c = digit_to_char(n);
        push_char(s, c);
        assert(old(s)@.push(c) =~= old(s)@ + decimal_of(n as nat));
    }
}

/// The decimal notation of `n` (`u64::to_string`).
pub fn u64_to_decimal(n: u64) -> (r: String)
    ensures
        r@ == decimal_of(n as nat),
{
    let mut s = String::new();
    push_decimal(&mut s, n);
    assert(Seq::<char>::empty() + decimal_of(n as nat) =~= decimal_of(n as nat));
    s
}

/// The decimal notation of `n` (`usize::to_string`).
pub fn usize_to_decimal(n: usize) -> (r: String)
    ensures
        r@ == decimal_of(n as nat),
{
    u64_to_decimal(n as u64)
}

/// The decimal notation of `n` (`i64::to_string`).
pub fn i64_to_decimal(n: i64) -> (r: String)
    ensures
        r@ == i64_decimal(n),
{
    if n < 0 {
        let mut s = String::new();
        push_char(&mut s, '-');
        let m: u64 = if n == i64::MIN {
            9223372036854775808u64
        } else {
            (-n) as u64
        };
        push_decimal(&mut s, m);
        assert(seq!['-'] + decimal_of(m as nat) =~= i64_decimal(n));
        s
    } else {
        u64_to_decimal(n as u64)
    }
}

fn digit_of(c: char) -> (d: Option<usize>)
    ensures
        d is Some <==> is_digit(c),
        d matches Some(v) ==> v == digit_value(c) && v < 10,
{
    if '0' <= c && c <= '9' {
        Some(((c as u32) - ('0' as u32)) as usize)
    } else {
        None
    }
}

/// Parses a decimal `usize` as `str::parse::<usize>` does.
pub fn parse_usize(s: &str) -> (r: Option<usize>)
    ensures
        r == parse_usize_spec(s@),
{
    let v = chars_of(s);
    let start: usize = if v.len() > 0 && v[0] == '+' { 1 } else { 0 };
    let ghost d = if v@.len() > 0 && v@[0] == '+' { v@.drop_first() } else { v@ };
    assert(d =~= v@.subrange(start as int, v@.len() as int));
    if start >= v.len() {
        return None;
    }
    let mut acc: usize = 0;
    let mut i = start;
    while i < v.len()
        invariant
            start <= i <= v.len(),
            v@ == s@,
            d == (if v@.len() > 0 && v@[0] == '+' { v@.drop_first() } else { v@ }),
            d == v@.subrange(start as int, v@.len() as int),
            all_digits(d.take(i - start)),
            acc == digits_value(d.take(i - start)),
        decreases v.len() - i,
    {
        let k = i - start;
        assert(d.take(k + 1).drop_last() =~= d.take(k as int));
        assert(d.take(k + 1).last() == v@[i as int]);
        match digit_of(v[i]) {
            None => {
                assert(!all_digits(d)) by {
                    assert(d[k as int] == v@[i as int]);
                }
                return None;
            },
            Some(dv) => {
                if acc > (usize::MAX - dv) / 10 {
                    proof {
                        assert(digits_value(d.take(k + 1)) == acc * 10 + dv);
                        assert(acc * 10 + dv > usize::MAX) by (nonlinear_arith)
                            requires
                                acc > (usize::MAX - dv) / 10,
                                dv < 10,
                        ;
                        if all_digits(d) {
                            lemma_digits_value_prefix(d, k + 1);
                        }
                    }
                    return None;
                }
                assert(acc * 10 + dv <= usize::MAX) by (nonlinear_arith)
                    requires
                        acc <= (usize::MAX - dv) / 10,
                        dv < 10,
                ;
                acc = acc * 10 + dv;
                assert forall|j: int| 0 <= j < k + 1 implies is_digit(#[trigger] d.take(k + 1)[j]) by {
                    if j < k {
                        assert(d.take(k + 1)[j] == d.take(k as int)[j]);
                    }
                }
            },
        }
        i = i + 1;
    }
    assert(d.take(v.len() - start) =~= d);
    Some(acc)
}

} // verus!
verus! {

/// Ten to the power `k`.
pub open spec fn pow10(k: nat) -> nat
    decreases k,
{
    if k == 0 {
        1
    } else {
        10 * pow10((k - 1) as nat)
    }
}

proof fn lemma_decimal_len_bound(n: nat, k: nat)
    requires
        k >= 1,
        n < pow10(k),
    ensures
        decimal_of(n).len() <= k,
    decreases n,
{
    if n >= 10 {
        assert(k >= 2) by {
            if k == 1 {
                assert(pow10(1) == 10 * pow10(0));
            }
        }
        let p = pow10((k - 1) as nat);
        assert(pow10(k) == 10 * p);
        assert(n / 10 < p) by (nonlinear_arith)
            requires
                n < 10 * p,
        ;
        lemma_decimal_len_bound(n / 10, (k - 1) as nat);
    }
}

/// The decimal notation of a 64-bit number is at most 20 ASCII characters, so its UTF-8
/// encoding is as long.
pub proof fn lemma_decimal_small(n: u64)
    ensures
        decimal_of(n as nat).len() <= 20,
        vstd::utf8::encode_utf8(decimal_of(n as nat)).len() == decimal_of(n as nat).len(),
{
    reveal_with_fuel(pow10, 21);
    assert(pow10(20) == 100000000000000000000nat);
    lemma_decimal_len_bound(n as nat, 20);
    lemma_decimal_of_digits(n as nat);
    let d = decimal_of(n as nat);
    assert(vstd::utf8::is_ascii_chars(d)) by {
        assert forall|i: int| 0 <= i < d.len() implies '\0' <= #[trigger] d[i] <= '\u{7f}' by {
            assert(is_digit(d[i]));
        }
    }
    vstd::utf8::is_ascii_chars_encode_utf8(d);
}

} // verus!
