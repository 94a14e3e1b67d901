//! Decimal rendering and parsing of the integers the command surface uses:
//! counts and pixel amounts are rendered into scripts and summaries, and
//! timeout / amount tokens are parsed from command lines the way std's
//! integer parsing reads them (optional sign, decimal digits, no overflow).

use vstd::prelude::*;

verus! {

pub open spec fn is_dec_digit(c: char) -> bool {
    '0' <= c && c <= '9'
}

pub open spec fn digit_val(c: char) -> nat {
    (c as nat - '0' as nat) as nat
}

pub open spec fn all_dec_digits(s: Seq<char>) -> bool {
    forall|i: int| 0 <= i < s.len() ==> is_dec_digit(#[trigger] s[i])
}

/// The numeric value of a digit string, most significant digit first.
pub open spec fn digits_val(s: Seq<char>) -> nat
    decreases s.len(),
{
    if s.len() == 0 {
        0
    } else {
        digits_val(s.drop_last()) * 10 + digit_val(s.last())
    }
}

pub open spec fn dec_digit_char(d: nat) -> char {
    if d == 0 { '0' }
    else if d == 1 { '1' }
    else if d == 2 { '2' }
    else if d == 3 { '3' }
    else if d == 4 { '4' }
    else if d == 5 { '5' }
    else if d == 6 { '6' }
    else if d == 7 { '7' }
    else if d == 8 { '8' }
    else { '9' }
}

/// The decimal rendering of a natural number: no sign, no leading zero
/// except for zero itself.
pub open spec fn dec_of(n: nat) -> Seq<char>
    decreases n,
{
    if n < 10 {
        seq![dec_digit_char(n)]
    } else {
        dec_of(n / 10).push(dec_digit_char(n % 10))
    }
}

/// The decimal rendering of an integer: a leading '-' for negative values.
pub open spec fn dec_of_int(i: int) -> Seq<char> {
    if i >= 0 {
        dec_of(i as nat)
    } else {
        seq!['-'] + dec_of((-i) as nat)
    }
}

fn dec_digit_exec(d: u64) -> (c: char)
    requires
        d < 10,
    ensures
        c == dec_digit_char(d as nat),
{
    if d == 0 { '0' }
    else if d == 1 { '1' }
    else if d == 2 { '2' }
    else if d == 3 { '3' }
    else if d == 4 { '4' }
    else if d == 5 { '5' }
    else if d == 6 { '6' }
    else if d == 7 { '7' }
    else if d == 8 { '8' }
    else { '9' }
}

/// Renders a number in decimal.
pub fn u64_to_dec(n: u64) -> (r: String)
    ensures
        r@ == dec_of(n as nat),
    decreases n,
{
    if n < 10 {
        let mut s = String::new();
        s.push(dec_digit_exec(n));
        s
    } else {
        let mut s = u64_to_dec(n / 10);
        s.push(dec_digit_exec(n % 10));
        s
    }
}

/// Renders a signed number in decimal, with a leading '-' when negative.
pub fn i64_to_dec(n: i64) -> (r: String)
    ensures
        r@ == dec_of_int(n as int),
{
    if n >= 0 {
        u64_to_dec(n as u64)
    } else {
        // Magnitude computed without negating i64::MIN itself.
        let m: u64 = ((-(n + 1)) as u64) + 1;
        assert(m == -(n as int));
        let mut s = String::new();
        s.push('-');
        let digits = u64_to_dec(m);
        let r = s.concat(digits.as_str());
        proof {
            assert(r@ =~= dec_of_int(n as int));
        }
        r
    }
}

/// What parsing an unsigned decimal token yields: std's `u64` syntax is an
/// optional leading '+', then one or more digits, and the value must fit.
pub open spec fn parse_u64_spec(s: Seq<char>) -> Option<int> {
    let body = if s.len() >= 1 && s[0] == '+' { s.subrange(1, s.len() as int) } else { s };
    if body.len() > 0 && all_dec_digits(body) && digits_val(body) <= u64::MAX {
        Some(digits_val(body) as int)
    } else {
        None
    }
}

/// What parsing a signed decimal token yields: std's `i32` syntax is an
/// optional leading '+' or '-', then one or more digits, within `i32` range.
pub open spec fn parse_i32_spec(s: Seq<char>) -> Option<int> {
    let body = if s.len() >= 1 && (s[0] == '+' || s[0] == '-') {
        s.subrange(1, s.len() as int)
    } else {
        s
    };
    let neg = s.len() >= 1 && s[0] == '-';
    if body.len() > 0 && all_dec_digits(body) {
        let v = digits_val(body) as int;
        if neg && v <= 0x8000_0000 {
            Some(-v)
        } else if !neg && v <= 0x7fff_ffff {
            Some(v)
        } else {
            None
        }
    } else {
        None
    }
}

proof fn lemma_digits_val_step(s: Seq<char>, i: int)
    requires
        0 <= i < s.len(),
    ensures
        digits_val(s.subrange(0, i + 1)) == digits_val(s.subrange(0, i)) * 10 + digit_val(s[i]),
{
    let t = s.subrange(0, i + 1);
    assert(t.drop_last() =~= s.subrange(0, i));
    assert(t.last() == s[i]);
}

proof fn lemma_digits_val_mono(s: Seq<char>, i: int)
    requires
        0 <= i <= s.len(),
    ensures
        digits_val(s.subrange(0, i)) <= digits_val(s),
    decreases s.len() - i,
{
    if i == s.len() {
        assert(s.subrange(0, i) =~= s);
    } else {
        lemma_digits_val_step(s, i);
        lemma_digits_val_mono(s, i + 1);
    }
}

/// Parses the digit body of a token (everything after any sign), exactly as
/// far as the value fits in `u64`.
fn parse_digits(v: &[char], start: usize) -> (r: Option<u64>)
    requires
        start <= v@.len(),
    ensures
        ({
            let body = v@.subrange(start as int, v@.len() as int);
            match r {
                Some(n) => body.len() > 0 && all_dec_digits(body) && digits_val(body) == n,
                None => !(body.len() > 0 && all_dec_digits(body) && digits_val(body)
                    <= u64::MAX),
            }
        }),
{
    let ghost body = v@.subrange(start as int, v@.len() as int);
    if start == v.len() {
        return None;
    }
    let mut acc: u64 = 0;
    let mut i: usize = start;
    while i < v.len()
        invariant
            start <= i <= v@.len(),
            body == v@.subrange(start as int, v@.len() as int),
            all_dec_digits(body.subrange(0, i - start)),
            acc == digits_val(body.subrange(0, i - start)),
        decreases v@.len() - i,
    {
        let c = v[i];
        if !('0' <= c && c <= '9') {
            assert(body[i - start] == c);
            return None;
        }
        let d: u64 = (c as u32 as u64) - ('0' as u32 as u64);
        assert(d == digit_val(c));
        let next = match acc.checked_mul(10) {
            Some(m) => m.checked_add(d),
            None => None,
        };
        proof {
            lemma_digits_val_step(body, i - start);
            assert(body[i - start] == c);
        }
        match next {
            Some(n) => {
                acc = n;
            }
            None => {
                // The prefix already exceeds u64::MAX, so the whole body does.
                proof {
                    lemma_digits_val_mono(body, i - start + 1);
                }
                return None;
            }
        }
        i = i + 1;
    }
    proof {
        assert(body.subrange(0, i - start) =~= body);
    }
    Some(acc)
}

/// Parses a `u64` the way std's `str::parse::<u64>` reads the same token.
pub fn parse_u64(v: &[char]) -> (r: Option<u64>)
    ensures
        match r {
            Some(n) => parse_u64_spec(v@) == Some(n as int),
            None => parse_u64_spec(v@) is None,
        },
{
    let start: usize = if v.len() >= 1 && v[0] == '+' { 1 } else { 0 };
    proof {
        if start == 0 {
            assert(v@.subrange(0, v@.len() as int) =~= v@);
        }
    }
    parse_digits(v, start)
}

/// Parses an `i32` the way std's `str::parse::<i32>` reads the same token.
pub fn parse_i32(v: &[char]) -> (r: Option<i32>)
    ensures
        match r {
            Some(n) => parse_i32_spec(v@) == Some(n as int),
            None => parse_i32_spec(v@) is None,
        },
{
    let neg = v.len() >= 1 && v[0] == '-';
    let start: usize = if v.len() >= 1 && (v[0] == '+' || v[0] == '-') { 1 } else { 0 };
    proof {
        if start == 0 {
            assert(v@.subrange(0, v@.len() as int) =~= v@);
        }
    }
    match parse_digits(v, start) {
        None => {
            // Either the body is malformed or its value exceeds u64::MAX,
            // which also exceeds the i32 range.
            None
        }
        Some(n) => {
            if neg {
                if n <= 0x8000_0000 {
                    if n == 0x8000_0000 {
                        Some(i32::MIN)
                    } else {
                        Some(-(n as i32))
                    }
                } else {
                    None
                }
            } else {
                if n <= 0x7fff_ffff {
                    Some(n as i32)
                } else {
                    None
                }
            }
        }
    }
}

} // verus!
