//! The grammar of a sample's value token, and its rendering as a JSON token.
//! A value is either one of the special tokens `NaN`, `Inf`, `+Inf`, `-Inf`
//! (captured as JSON `null`, since JSON has no number for them) or a decimal
//! number with optional sign, fraction and exponent; a number is normalized
//! by dropping a leading `+` and redundant leading zeros, which makes the
//! stored token a valid JSON number as written.

use vstd::prelude::*;

use crate::chars::{digit_c, is_digit, subrange_of};
use crate::scan::{scan_digits, spec_scan_digits};

verus! {

pub open spec fn spec_is_special(t: Seq<char>) -> bool {
    t == "NaN"@ || t == "Inf"@ || t == "+Inf"@ || t == "-Inf"@
}

pub open spec fn spec_number_exp(t: Seq<char>, k: int) -> bool {
    if k == t.len() {
        true
    } else if 0 <= k < t.len() && (t[k] == 'e' || t[k] == 'E') {
        let k1: int = if k + 1 < t.len() && (t[k + 1] == '+' || t[k + 1] == '-') {
            k + 2
        } else {
            k + 1
        };
        let k2 = spec_scan_digits(t, k1);
        k2 > k1 && k2 == t.len()
    } else {
        false
    }
}

pub open spec fn spec_number_tail(t: Seq<char>, j: int) -> bool {
    if j == t.len() {
        true
    } else if 0 <= j < t.len() && t[j] == '.' {
        let j2 = spec_scan_digits(t, j + 1);
        j2 > j + 1 && spec_number_exp(t, j2)
    } else {
        spec_number_exp(t, j)
    }
}

pub open spec fn spec_number_ok(t: Seq<char>) -> bool {
    let i: int = if t.len() > 0 && (t[0] == '+' || t[0] == '-') {
        1
    } else {
        0
    };
    let j = spec_scan_digits(t, i);
    j > i && spec_number_tail(t, j)
}

pub open spec fn spec_value_ok(t: Seq<char>) -> bool {
    spec_is_special(t) || spec_number_ok(t)
}

/// The suffix of `t` from `i` on, with redundant leading zeros dropped.
pub open spec fn spec_strip_zeros(t: Seq<char>, i: int) -> Seq<char>
    decreases t.len() - i,
    when 0 <= i <= t.len()
{
    if i + 1 < t.len() && t[i] == '0' && is_digit(t[i + 1]) {
        spec_strip_zeros(t, i + 1)
    } else {
        t.subrange(i, t.len() as int)
    }
}

pub open spec fn spec_canonical_number(t: Seq<char>) -> Seq<char> {
    if t.len() > 0 && t[0] == '-' {
        seq!['-'] + spec_strip_zeros(t, 1)
    } else if t.len() > 0 && t[0] == '+' {
        spec_strip_zeros(t, 1)
    } else {
        spec_strip_zeros(t, 0)
    }
}

/// The JSON token recorded for a value token.
pub open spec fn spec_value_text(t: Seq<char>) -> Seq<char> {
    if spec_is_special(t) {
        "null"@
    } else {
        spec_canonical_number(t)
    }
}

pub fn is_special(t: &Vec<char>) -> (b: bool)
    ensures
        b == spec_is_special(t@),
{
    proof {
        reveal_strlit("NaN");
        reveal_strlit("Inf");
        reveal_strlit("+Inf");
        reveal_strlit("-Inf");
    }
    if t.len() == 3 {
        if t[0] == 'N' && t[1] == 'a' && t[2] == 'N' {
            proof {
                assert(t@ =~= "NaN"@);
            }
            true
        } else if t[0] == 'I' && t[1] == 'n' && t[2] == 'f' {
            proof {
                assert(t@ =~= "Inf"@);
            }
            true
        } else {
            false
        }
    } else if t.len() == 4 {
        if (t[0] == '+' || t[0] == '-') && t[1] == 'I' && t[2] == 'n' && t[3] == 'f' {
            proof {
                if t@[0] == '+' {
                    assert(t@ =~= "+Inf"@);
                } else {
                    assert(t@ =~= "-Inf"@);
                }
            }
            true
        } else {
            false
        }
    } else {
        false
    }
}

fn number_exp(t: &Vec<char>, k: usize) -> (b: bool)
    requires
        k <= t@.len(),
    ensures
        b == spec_number_exp(t@, k as int),
{
    if k == t.len() {
        true
    } else if t[k] == 'e' || t[k] == 'E' {
        let k1: usize = if k + 1 < t.len() && (t[k + 1] == '+' || t[k + 1] == '-') {
            k + 2
        } else {
            k + 1
        };
        let k2 = scan_digits(t, k1);
        k2 > k1 && k2 == t.len()
    } else {
        false
    }
}

fn number_tail(t: &Vec<char>, j: usize) -> (b: bool)
    requires
        j <= t@.len(),
    ensures
        b == spec_number_tail(t@, j as int),
{
    if j == t.len() {
        true
    } else if t[j] == '.' {
        let j2 = scan_digits(t, j + 1);
        j2 > j + 1 && number_exp(t, j2)
    } else {
        number_exp(t, j)
    }
}

pub fn number_ok(t: &Vec<char>) -> (b: bool)
    ensures
        b == spec_number_ok(t@),
{
    let i: usize = if t.len() > 0 && (t[0] == '+' || t[0] == '-') {
        1
    } else {
        0
    };
    let j = scan_digits(t, i);
    j > i && number_tail(t, j)
}

pub fn value_ok(t: &Vec<char>) -> (b: bool)
    ensures
        b == spec_value_ok(t@),
{
    is_special(t) || number_ok(t)
}

fn strip_zeros(t: &Vec<char>, i: usize) -> (out: Vec<char>)
    requires
        i <= t@.len(),
    ensures
        out@ == spec_strip_zeros(t@, i as int),
{
    let mut j: usize = i;
    while j < t.len() && j + 1 < t.len() && t[j] == '0' && digit_c(t[j + 1])
        invariant
            i <= j <= t@.len(),
            spec_strip_zeros(t@, i as int) == spec_strip_zeros(t@, j as int),
        decreases t@.len() - j,
    {
        j = j + 1;
    }
    subrange_of(t, j, t.len())
}

fn canonical_number(t: &Vec<char>) -> (out: Vec<char>)
    ensures
        out@ == spec_canonical_number(t@),
{
    if t.len() > 0 && t[0] == '-' {
        let rest = strip_zeros(t, 1);
        let mut out: Vec<char> = Vec::new();
        out.push('-');
        let mut tail = rest;
        out.append(&mut tail);
        proof {
            assert(out@ =~= seq!['-'] + spec_strip_zeros(t@, 1));
        }
        out
    } else if t.len() > 0 && t[0] == '+' {
        strip_zeros(t, 1)
    } else {
        strip_zeros(t, 0)
    }
}

/// The JSON token recorded for the value token `t`.
pub fn value_text(t: &Vec<char>) -> (out: Vec<char>)
    ensures
        out@ == spec_value_text(t@),
{
    if is_special(t) {
        let mut out: Vec<char> = Vec::new();
        out.push('n');
        out.push('u');
        out.push('l');
        out.push('l');
        proof {
            reveal_strlit("null");
            assert(out@ =~= "null"@);
        }
        out
    } else {
        canonical_number(t)
    }
}

} // verus!
