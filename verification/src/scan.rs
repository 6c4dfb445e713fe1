//! Position scanners over a line of characters: each returns the first index
//! at or after `i` where its character class ends, and the line splitter that
//! cuts a whole response body at newlines.

use vstd::prelude::*;

use crate::chars::{
    digit_c, is_digit, is_label_char, is_name_char, is_space, label_char_c, name_char_c, space_c,
    subrange_of,
};

verus! {

pub open spec fn spec_skip_ws(l: Seq<char>, i: int) -> int
    decreases l.len() - i,
    when 0 <= i <= l.len()
{
    if i < l.len() && is_space(l[i]) {
        spec_skip_ws(l, i + 1)
    } else {
        i
    }
}

pub open spec fn spec_scan_name(l: Seq<char>, i: int) -> int
    decreases l.len() - i,
    when 0 <= i <= l.len()
{
    if i < l.len() && is_name_char(l[i]) {
        spec_scan_name(l, i + 1)
    } else {
        i
    }
}

pub open spec fn spec_scan_label(l: Seq<char>, i: int) -> int
    decreases l.len() - i,
    when 0 <= i <= l.len()
{
    if i < l.len() && is_label_char(l[i]) {
        spec_scan_label(l, i + 1)
    } else {
        i
    }
}

pub open spec fn spec_scan_digits(l: Seq<char>, i: int) -> int
    decreases l.len() - i,
    when 0 <= i <= l.len()
{
    if i < l.len() && is_digit(l[i]) {
        spec_scan_digits(l, i + 1)
    } else {
        i
    }
}

pub open spec fn spec_scan_nonws(l: Seq<char>, i: int) -> int
    decreases l.len() - i,
    when 0 <= i <= l.len()
{
    if i < l.len() && !is_space(l[i]) {
        spec_scan_nonws(l, i + 1)
    } else {
        i
    }
}

pub fn skip_ws(v: &Vec<char>, i: usize) -> (r: usize)
    requires
        i <= v@.len(),
    ensures
        r == spec_skip_ws(v@, i as int),
        i <= r <= v@.len(),
{
    let mut j: usize = i;
    while j < v.len() && space_c(v[j])
        invariant
            i <= j <= v@.len(),
            spec_skip_ws(v@, i as int) == spec_skip_ws(v@, j as int),
        decreases v@.len() - j,
    {
        j = j + 1;
    }
    j
}

pub fn scan_name(v: &Vec<char>, i: usize) -> (r: usize)
    requires
        i <= v@.len(),
    ensures
        r == spec_scan_name(v@, i as int),
        i <= r <= v@.len(),
{
    let mut j: usize = i;
    while j < v.len() && name_char_c(v[j])
        invariant
            i <= j <= v@.len(),
            spec_scan_name(v@, i as int) == spec_scan_name(v@, j as int),
        decreases v@.len() - j,
    {
        j = j + 1;
    }
    j
}

pub fn scan_label(v: &Vec<char>, i: usize) -> (r: usize)
    requires
        i <= v@.len(),
    ensures
        r == spec_scan_label(v@, i as int),
        i <= r <= v@.len(),
{
    let mut j: usize = i;
    while j < v.len() && label_char_c(v[j])
        invariant
            i <= j <= v@.len(),
            spec_scan_label(v@, i as int) == spec_scan_label(v@, j as int),
        decreases v@.len() - j,
    {
        j = j + 1;
    }
    j
}

pub fn scan_digits(v: &Vec<char>, i: usize) -> (r: usize)
    requires
        i <= v@.len(),
    ensures
        r == spec_scan_digits(v@, i as int),
        i <= r <= v@.len(),
{
    let mut j: usize = i;
    while j < v.len() && digit_c(v[j])
        invariant
            i <= j <= v@.len(),
            spec_scan_digits(v@, i as int) == spec_scan_digits(v@, j as int),
        decreases v@.len() - j,
    {
        j = j + 1;
    }
    j
}

pub fn scan_nonws(v: &Vec<char>, i: usize) -> (r: usize)
    requires
        i <= v@.len(),
    ensures
        r == spec_scan_nonws(v@, i as int),
        i <= r <= v@.len(),
{
    let mut j: usize = i;
    while j < v.len() && !space_c(v[j])
        invariant
            i <= j <= v@.len(),
            spec_scan_nonws(v@, i as int) == spec_scan_nonws(v@, j as int),
        decreases v@.len() - j,
    {
        j = j + 1;
    }
    j
}

/// Every character scanned over is a digit.
pub proof fn lemma_scan_digits_all(l: Seq<char>, i: int)
    requires
        0 <= i <= l.len(),
    ensures
        i <= spec_scan_digits(l, i) <= l.len(),
        forall|k: int| i <= k < spec_scan_digits(l, i) ==> is_digit(#[trigger] l[k]),
    decreases l.len() - i,
{
    if i < l.len() && is_digit(l[i]) {
        lemma_scan_digits_all(l, i + 1);
    }
}

pub open spec fn spec_find_nl(l: Seq<char>, i: int) -> int
    decreases l.len() - i,
    when 0 <= i <= l.len()
{
    if i < l.len() && l[i] != '\n' {
        spec_find_nl(l, i + 1)
    } else {
        i
    }
}

/// The lines of `l` from position `i` on, split at every newline; the text
/// after the last newline is a line of its own (possibly empty).
pub open spec fn spec_split_from(l: Seq<char>, i: int) -> Seq<Seq<char>>
    decreases l.len() - i,
    when 0 <= i <= l.len()
{
    let j = spec_find_nl(l, i);
    if i <= j < l.len() {
        seq![l.subrange(i, j)] + spec_split_from(l, j + 1)
    } else {
        seq![l.subrange(i, l.len() as int)]
    }
}

pub fn find_nl(v: &Vec<char>, i: usize) -> (r: usize)
    requires
        i <= v@.len(),
    ensures
        r == spec_find_nl(v@, i as int),
        i <= r <= v@.len(),
{
    let mut j: usize = i;
    while j < v.len() && v[j] != '\n'
        invariant
            i <= j <= v@.len(),
            spec_find_nl(v@, i as int) == spec_find_nl(v@, j as int),
        decreases v@.len() - j,
    {
        j = j + 1;
    }
    j
}

pub open spec fn lines_view(ls: Seq<Vec<char>>) -> Seq<Seq<char>> {
    ls.map_values(|x: Vec<char>| x@)
}

/// Cuts `v[i..]` into its lines.
pub fn split_from(v: &Vec<char>, i: usize) -> (out: Vec<Vec<char>>)
    requires
        i <= v@.len(),
    ensures
        lines_view(out@) == spec_split_from(v@, i as int),
        out@.len() >= 1,
    decreases v@.len() - i,
{
    let j = find_nl(v, i);
    if j >= v.len() {
        let line = subrange_of(v, i, v.len());
        let mut out: Vec<Vec<char>> = Vec::new();
        out.push(line);
        proof {
            assert(lines_view(out@) =~= spec_split_from(v@, i as int));
        }
        out
    } else {
        let line = subrange_of(v, i, j);
        let mut rest = split_from(v, j + 1);
        rest.insert(0, line);
        proof {
            assert(lines_view(rest@) =~= seq![v@.subrange(i as int, j as int)] + spec_split_from(
                v@,
                j + 1,
            ));
        }
        rest
    }
}

} // verus!
