//! Decimal numerals: rendering an unsigned integer as its digit string, and
//! reading a digit string back as a `u64`.

use vstd::prelude::*;

use crate::chars::{digit_c, is_digit, string_of};

verus! {

pub open spec fn spec_digit(d: int) -> char {
    if d == 0 {
        '0'
    } else if d == 1 {
        '1'
    } else if d == 2 {
        '2'
    } else if d == 3 {
        '3'
    } else if d == 4 {
        '4'
    } else if d == 5 {
        '5'
    } else if d == 6 {
        '6'
    } else if d == 7 {
        '7'
    } else if d == 8 {
        '8'
    } else {
        '9'
    }
}

/// The decimal numeral of `n`, most significant digit first, with no sign and
/// no leading zero (a single `'0'` for zero itself).
pub open spec fn spec_dec(n: int) -> Seq<char>
    decreases n,
{
    if n < 10 {
        seq![spec_digit(n)]
    } else {
        spec_dec(n / 10).push(spec_digit(n % 10))
    }
}

fn digit_of(d: u128) -> (c: char)
    requires
        d < 10,
    ensures
        c == spec_digit(d as int),
{
    if d == 0 {
        '0'
    } else if d == 1 {
        '1'
    } else if d == 2 {
        '2'
    } else if d == 3 {
        '3'
    } else if d == 4 {
        '4'
    } else if d == 5 {
        '5'
    } else if d == 6 {
        '6'
    } else if d == 7 {
        '7'
    } else if d == 8 {
        '8'
    } else {
        '9'
    }
}

pub fn dec_chars_u128(n: u128) -> (v: Vec<char>)
    ensures
        v@ == spec_dec(n as int),
    decreases n,
{
    if n < 10 {
        let mut v: Vec<char> = Vec::new();
        v.push(digit_of(n));
        proof {
            assert(v@ =~= seq![spec_digit(n as int)]);
        }
        v
    } else {
        let mut v: Vec<char> = dec_chars_u128(n / 10);
        v.push(digit_of(n % 10));
        v
    }
}

/// The decimal numeral of `n` as a string.
pub fn render_u128(n: u128) -> (s: String)
    ensures
        s@ == spec_dec(n as int),
{
    string_of(dec_chars_u128(n))
}

/// The decimal numeral of `n` as a string.
pub fn render_u64(n: u64) -> (s: String)
    ensures
        s@ == spec_dec(n as int),
{
    render_u128(n as u128)
}

pub open spec fn digit_val(c: char) -> int {
    if c == '0' {
        0
    } else if c == '1' {
        1
    } else if c == '2' {
        2
    } else if c == '3' {
        3
    } else if c == '4' {
        4
    } else if c == '5' {
        5
    } else if c == '6' {
        6
    } else if c == '7' {
        7
    } else if c == '8' {
        8
    } else {
        9
    }
}

pub open spec fn all_digits(s: Seq<char>) -> bool {
    forall|i: int| 0 <= i < s.len() ==> is_digit(#[trigger] s[i])
}

/// The value of a digit string, most significant digit first.
pub open spec fn digits_val(s: Seq<char>) -> int
    decreases s.len(),
{
    if s.len() == 0 {
        0
    } else {
        digits_val(s.drop_last()) * 10 + digit_val(s.last())
    }
}

pub proof fn lemma_digits_val_nonneg(s: Seq<char>)
    ensures
        digits_val(s) >= 0,
    decreases s.len(),
{
    if s.len() > 0 {
        lemma_digits_val_nonneg(s.drop_last());
    }
}

pub proof fn lemma_digits_val_prefix_le(s: Seq<char>, j: int)
    requires
        0 <= j <= s.len(),
    ensures
        digits_val(s.take(j)) <= digits_val(s),
    decreases s.len() - j,
{
    if j < s.len() {
        lemma_digits_val_prefix_le(s, j + 1);
        lemma_digits_val_nonneg(s.take(j));
        assert(s.take(j + 1).drop_last() =~= s.take(j));
        assert(s.take(j + 1).last() == s[j]);
        assert(digits_val(s.take(j)) <= digits_val(s.take(j + 1)));
    } else {
        assert(s.take(j) =~= s);
    }
}

fn digit_u64_of(c: char) -> (d: u64)
    requires
        is_digit(c),
    ensures
        d == digit_val(c),
        d < 10,
{
    if c == '0' {
        0
    } else if c == '1' {
        1
    } else if c == '2' {
        2
    } else if c == '3' {
        3
    } else if c == '4' {
        4
    } else if c == '5' {
        5
    } else if c == '6' {
        6
    } else if c == '7' {
        7
    } else if c == '8' {
        8
    } else {
        9
    }
}

/// Reads `v[from..to]` as a decimal number. Returns `None` exactly when the
/// value does not fit in a `u64`.
pub fn parse_u64_digits(v: &Vec<char>, from: usize, to: usize) -> (r: Option<u64>)
    requires
        from <= to <= v@.len(),
        all_digits(v@.subrange(from as int, to as int)),
    ensures
        ({
            let s = v@.subrange(from as int, to as int);
            &&& (r is Some <==> digits_val(s) <= u64::MAX)
            &&& (r is Some ==> r->Some_0 == digits_val(s))
        }),
{
    let ghost s = v@.subrange(from as int, to as int);
    let mut val: u64 = 0;
    let mut i: usize = from;
    while i < to
        invariant
            from <= i <= to <= v@.len(),
            s == v@.subrange(from as int, to as int),
            all_digits(s),
            val == digits_val(s.take(i - from)),
        decreases to - i,
    {
        assert(s[i - from] == v@[i as int]);
        let d: u64 = digit_u64_of(v[i]);
        if val > (u64::MAX - d) / 10 {
            proof {
                assert(s.take(i + 1 - from).drop_last() =~= s.take(i - from));
                assert(s.take(i + 1 - from).last() == s[i - from]);
                assert(val * 10 + d > u64::MAX) by (nonlinear_arith)
                    requires
                        val > (u64::MAX - d) / 10,
                        d < 10,
                ;
                assert(digits_val(s.take(i + 1 - from)) > u64::MAX);
                lemma_digits_val_prefix_le(s, i + 1 - from);
            }
            return None;
        }
        proof {
            assert(val * 10 + d <= u64::MAX) by (nonlinear_arith)
                requires
                    val <= (u64::MAX - d) / 10,
                    d < 10,
            ;
            assert(s.take(i + 1 - from).drop_last() =~= s.take(i - from));
            assert(s.take(i + 1 - from).last() == s[i - from]);
        }
        val = val * 10 + d;
        i = i + 1;
    }
    proof {
        assert(s.take(to - from) =~= s);
    }
    Some(val)
}

} // verus!
