//! Decimal rendering and parsing of integers over character sequences.
//!
//! Numeric fields in backend payloads may arrive as strings; coercion must
//! treat `"77"` exactly as the number `77`. The parser here follows the
//! grammar of Rust's integer parsing: an optional `+`/`-` sign followed by
//! at least one ASCII digit, rejected on any other character or on overflow.

use vstd::prelude::*;
use vstd::string::StringExecFns;

verus! {

pub open spec fn is_dec_digit(c: char) -> bool {
    48 <= c as u32 <= 57
}

pub open spec fn digit_val(c: char) -> int {
    c as u32 - 48
}

pub open spec fn digit_char(d: int) -> char {
    if d == 0 { '0' }
    else if d == 1 { '1' }
    else if d == 2 { '2' }
    else if d == 3 { '3' }
    else if d == 4 { '4' }
    else if d == 5 { '5' }
    else if d == 6 { '6' }
    else if d == 7 { '7' }
    else if d == 8 { '8' }
    else { '9' }
}

/// Value of a sequence of decimal digits, most significant first.
pub open spec fn digits_val(s: Seq<char>) -> int
    decreases s.len(),
{
    if s.len() == 0 {
        0
    } else {
        digits_val(s.drop_last()) * 10 + digit_val(s.last())
    }
}

pub open spec fn all_dec_digits(s: Seq<char>) -> bool {
    forall|i: int| 0 <= i < s.len() ==> is_dec_digit(#[trigger] s[i])
}

/// Canonical decimal rendering of a non-negative integer (no leading zeros).
pub open spec fn dec_nat(n: int) -> Seq<char>
    decreases n,
{
    if n < 10 {
        seq![digit_char(n)]
    } else {
        dec_nat(n / 10).push(digit_char(n % 10))
    }
}

/// Canonical decimal rendering of a signed integer.
pub open spec fn dec_int(n: int) -> Seq<char> {
    if n < 0 {
        seq!['-'] + dec_nat(-n)
    } else {
        dec_nat(n)
    }
}

/// Decimal integer parse: optional sign, one or more digits, in-range.
pub open spec fn parse_i64_spec(s: Seq<char>) -> Option<i64> {
    let digits = if s.len() > 0 && (s[0] == '+' || s[0] == '-') {
        s.subrange(1, s.len() as int)
    } else {
        s
    };
    let neg = s.len() > 0 && s[0] == '-';
    if digits.len() == 0 || !all_dec_digits(digits) {
        None
    } else {
        let v = if neg { -digits_val(digits) } else { digits_val(digits) };
        if i64::MIN <= v <= i64::MAX {
            Some(v as i64)
        } else {
            None
        }
    }
}

proof fn lemma_digits_val_nonneg(s: Seq<char>)
    requires
        all_dec_digits(s),
    ensures
        digits_val(s) >= 0,
    decreases s.len(),
{
    if s.len() > 0 {
        assert(all_dec_digits(s.drop_last()));
        lemma_digits_val_nonneg(s.drop_last());
    }
}

/// Extending a digit string on the right never shrinks its value.
proof fn lemma_digits_val_prefix(s: Seq<char>, k: int)
    requires
        all_dec_digits(s),
        0 <= k <= s.len(),
    ensures
        digits_val(s.subrange(0, k)) <= digits_val(s),
    decreases s.len() - k,
{
    if k < s.len() {
        let p = s.subrange(0, k + 1);
        assert(p.drop_last() =~= s.subrange(0, k));
        assert(all_dec_digits(p.drop_last()));
        lemma_digits_val_nonneg(p.drop_last());
        assert(digits_val(p) == digits_val(s.subrange(0, k)) * 10 + digit_val(s[k]));
        assert(digits_val(s.subrange(0, k)) * 10 >= digits_val(s.subrange(0, k))) by (nonlinear_arith)
            requires digits_val(s.subrange(0, k)) >= 0;
        assert(digit_val(s[k]) >= 0);
        lemma_digits_val_prefix(s, k + 1);
    } else {
        assert(s.subrange(0, k) =~= s);
    }
}

fn append_digit(s: &mut String, d: u64)
    requires
        d < 10,
    ensures
        final(s)@ == old(s)@.push(digit_char(d as int)),
{
    let lit: &str = if d == 0 { "0" }
        else if d == 1 { "1" }
        else if d == 2 { "2" }
        else if d == 3 { "3" }
        else if d == 4 { "4" }
        else if d == 5 { "5" }
        else if d == 6 { "6" }
        else if d == 7 { "7" }
        else if d == 8 { "8" }
        else { "9" };
    proof {
        reveal_strlit("0");
        reveal_strlit("1");
        reveal_strlit("2");
        reveal_strlit("3");
        reveal_strlit("4");
        reveal_strlit("5");
        reveal_strlit("6");
        reveal_strlit("7");
        reveal_strlit("8");
        reveal_strlit("9");
        assert(lit@ =~= seq![digit_char(d as int)]);
    }
    s.append(lit);
    proof {
        assert(s@ =~= old(s)@.push(digit_char(d as int)));
    }
}

fn append_dec_u64(s: &mut String, n: u64)
    ensures
        final(s)@ == old(s)@ + dec_nat(n as int),
    decreases n,
{
    if n < 10 {
        append_digit(s, n);
        proof {
            assert(s@ =~= old(s)@ + dec_nat(n as int));
        }
    } else {
        append_dec_u64(s, n / 10);
        append_digit(s, n % 10);
        proof {
            assert(s@ =~= old(s)@ + dec_nat(n as int));
        }
    }
}

/// Decimal rendering of an unsigned integer.
pub fn u64_to_dec(n: u64) -> (r: String)
    ensures
        r@ == dec_nat(n as int),
{
    let mut s = String::new();
    append_dec_u64(&mut s, n);
    proof {
        assert(s@ =~= dec_nat(n as int));
    }
    s
}

/// Decimal rendering of a signed integer, `-` prefixed when negative.
pub fn i64_to_dec(n: i64) -> (r: String)
    ensures
        r@ == dec_int(n as int),
{
    if n >= 0 {
        u64_to_dec(n as u64)
    } else {
        let mag: u64 = ((-(n + 1)) as u64) + 1;
        let mut s = String::from_str("-");
        proof {
            reveal_strlit("-");
            assert(s@ =~= seq!['-']);
        }
        append_dec_u64(&mut s, mag);
        proof {
            assert(mag as int == -(n as int));
            assert(s@ =~= dec_int(n as int));
        }
        s
    }
}

/// Parses a decimal integer, returning `None` on any malformed or
/// out-of-range input, exactly as `parse_i64_spec` describes.
pub fn parse_i64(s: &str) -> (r: Option<i64>)
    ensures
        r == parse_i64_spec(s@),
{
    let len = s.unicode_len();
    if len == 0 {
        return None;
    }
    let c0 = s.get_char(0);
    let mut start: usize = 0;
    let mut neg = false;
    if c0 == '-' {
        neg = true;
        start = 1;
    } else if c0 == '+' {
        start = 1;
    }
    let ghost digits: Seq<char> = if start == 1 { s@.subrange(1, s@.len() as int) } else { s@ };
    if start == len {
        proof {
            assert(digits.len() == 0);
        }
        return None;
    }
    let mut acc: u64 = 0;
    let mut i: usize = start;
    while i < len
        invariant
            start <= i <= len,
            len == s@.len(),
            0 < len,
            start == 0 || start == 1,
            start == 1 ==> (s@[0] == '+' || s@[0] == '-'),
            start == 0 ==> !(s@[0] == '+' || s@[0] == '-'),
            neg == (s@[0] == '-'),
            digits == (if start == 1 { s@.subrange(1, s@.len() as int) } else { s@ }),
            all_dec_digits(digits.subrange(0, i - start)),
            acc == digits_val(digits.subrange(0, i - start)),
            acc <= 0x8000000000000000u64,
        decreases len - i,
    {
        let c = s.get_char(i);
        let u = c as u32;
        if u < 48 || u > 57 {
            proof {
                assert(digits[i - start] == c);
                assert(!is_dec_digit(c));
                assert(!all_dec_digits(digits));
            }
            return None;
        }
        let d: u64 = (u - 48) as u64;
        let ghost pre = digits.subrange(0, i - start);
        let ghost post = digits.subrange(0, i - start + 1);
        proof {
            assert(post.drop_last() =~= pre);
            assert(post.last() == digits[i - start]);
            assert(digits[i - start] == c);
            assert(digit_val(c) == d);
            assert(digits_val(post) == acc * 10 + d);
            assert(all_dec_digits(post));
        }
        if acc > (0x8000000000000000u64 - d) / 10 {
            proof {
                assert(acc * 10 + d > 0x8000000000000000) by (nonlinear_arith)
                    requires
                        acc > (0x8000000000000000u64 - d) / 10,
                        d < 10,
                        acc >= 0;
                assert(digits_val(post) > 0x8000000000000000);
                if all_dec_digits(digits) {
                    lemma_digits_val_prefix(digits, i - start + 1);
                    assert(digits_val(digits) > 0x8000000000000000);
                }
            }
            return None;
        }
        proof {
            assert(acc * 10 + d <= 0x8000000000000000) by (nonlinear_arith)
                requires
                    acc <= (0x8000000000000000u64 - d) / 10,
                    d < 10,
                    acc >= 0;
        }
        acc = acc * 10 + d;
        i = i + 1;
        proof {
            assert(digits.subrange(0, i - start) == post);
        }
    }
    proof {
        assert(digits.subrange(0, len - start) =~= digits);
        assert(all_dec_digits(digits));
        assert(acc == digits_val(digits));
        assert(digits.len() > 0);
    }
    if neg {
        if acc == 0x8000000000000000u64 {
            Some(i64::MIN)
        } else {
            Some(-(acc as i64))
        }
    } else {
        if acc == 0x8000000000000000u64 {
            return None;
        }
        Some(acc as i64)
    }
}

/// Parsing a rendered decimal gives back the number: string-typed numeric
/// fields coerce exactly as their numeric originals.
pub proof fn lemma_parse_round_trip(n: i64)
    ensures
        parse_i64_spec(dec_int(n as int)) == Some(n),
{
    if n >= 0 {
        lemma_dec_nat_digits(n as int);
        let s = dec_nat(n as int);
        assert(s.len() > 0);
        assert(s[0] != '+' && s[0] != '-') by {
            assert(is_dec_digit(s[0]));
        }
        assert(parse_i64_spec(s) == Some(n));
    } else {
        lemma_dec_nat_digits(-(n as int));
        let m = dec_nat(-(n as int));
        let s = seq!['-'] + m;
        assert(s[0] == '-');
        assert(s.subrange(1, s.len() as int) =~= m);
        assert(parse_i64_spec(s) == Some(n));
    }
}

/// `dec_nat` of a non-negative integer is a non-empty digit string whose
/// value is that integer.
proof fn lemma_dec_nat_digits(n: int)
    requires
        n >= 0,
    ensures
        dec_nat(n).len() > 0,
        all_dec_digits(dec_nat(n)),
        digits_val(dec_nat(n)) == n,
    decreases n,
{
    if n < 10 {
        let s = dec_nat(n);
        assert(s =~= seq![digit_char(n)]);
        assert(is_dec_digit(digit_char(n)));
        assert(s.drop_last() =~= Seq::<char>::empty());
        assert(digits_val(Seq::<char>::empty()) == 0);
        assert(s.last() == digit_char(n));
        assert(digits_val(s) == digit_val(digit_char(n)));
        assert(digit_val(digit_char(n)) == n);
    } else {
        lemma_dec_nat_digits(n / 10);
        let p = dec_nat(n / 10);
        let s = p.push(digit_char(n % 10));
        assert(s.drop_last() =~= p);
        assert(s.last() == digit_char(n % 10));
        assert(is_dec_digit(digit_char(n % 10)));
        assert(digit_val(digit_char(n % 10)) == n % 10);
        assert(forall|i: int| 0 <= i < s.len() ==> is_dec_digit(#[trigger] s[i])) by {
            assert(forall|i: int| 0 <= i < p.len() ==> is_dec_digit(#[trigger] p[i]));
            assert(forall|i: int| 0 <= i < s.len() ==> s[i] == (if i < p.len() { p[i] } else { digit_char(n % 10) }));
        }
        assert(digits_val(s) == (n / 10) * 10 + n % 10);
        assert((n / 10) * 10 + n % 10 == n) by (nonlinear_arith)
            requires n >= 0;
    }
}

} // verus!
