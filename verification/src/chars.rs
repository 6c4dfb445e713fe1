//! Moving between `String` and `Vec<char>`, and the character classes of the
//! metric text grammar. The two conversions are the only trusted items here:
//! the view of a string *is* its character sequence, so their contracts state
//! exactly what the standard library does.

use vstd::prelude::*;

verus! {

/// Relies on `str::chars` (through `Iterator::collect`): it yields every
/// character of the string, in order.
#[verifier::external_body]
pub fn chars_of(s: &str) -> (v: Vec<char>)
    ensures
        v@ == s@,
{
    s.chars().collect()
}

/// Relies on `String: FromIterator<char>` (through `Iterator::collect`): the
/// collected string holds exactly the characters of the vector, in order.
#[verifier::external_body]
pub fn string_of(v: Vec<char>) -> (s: String)
    ensures
        s@ == v@,
{
    v.into_iter().collect()
}

pub open spec fn is_space(c: char) -> bool {
    c == ' ' || c == '\t'
}

pub open spec fn is_digit(c: char) -> bool {
    '0' <= c && c <= '9'
}

pub open spec fn is_alpha(c: char) -> bool {
    ('a' <= c && c <= 'z') || ('A' <= c && c <= 'Z')
}

/// First character of a metric name.
pub open spec fn is_name_start(c: char) -> bool {
    is_alpha(c) || c == '_' || c == ':'
}

/// Later character of a metric name.
pub open spec fn is_name_char(c: char) -> bool {
    is_name_start(c) || is_digit(c)
}

/// First character of a label name.
pub open spec fn is_label_start(c: char) -> bool {
    is_alpha(c) || c == '_'
}

/// Later character of a label name.
pub open spec fn is_label_char(c: char) -> bool {
    is_label_start(c) || is_digit(c)
}

pub fn space_c(c: char) -> (b: bool)
    ensures
        b == is_space(c),
{
    c == ' ' || c == '\t'
}

pub fn digit_c(c: char) -> (b: bool)
    ensures
        b == is_digit(c),
{
    '0' <= c && c <= '9'
}

pub fn alpha_c(c: char) -> (b: bool)
    ensures
        b == is_alpha(c),
{
    ('a' <= c && c <= 'z') || ('A' <= c && c <= 'Z')
}

pub fn name_start_c(c: char) -> (b: bool)
    ensures
        b == is_name_start(c),
{
    alpha_c(c) || c == '_' || c == ':'
}

pub fn name_char_c(c: char) -> (b: bool)
    ensures
        b == is_name_char(c),
{
    name_start_c(c) || digit_c(c)
}

pub fn label_start_c(c: char) -> (b: bool)
    ensures
        b == is_label_start(c),
{
    alpha_c(c) || c == '_'
}

pub fn label_char_c(c: char) -> (b: bool)
    ensures
        b == is_label_char(c),
{
    label_start_c(c) || digit_c(c)
}

/// Extracts `v[from..to]` as a fresh vector.
pub fn subrange_of(v: &Vec<char>, from: usize, to: usize) -> (out: Vec<char>)
    requires
        from <= to <= v@.len(),
    ensures
        out@ == v@.subrange(from as int, to as int),
{
    let mut out: Vec<char> = Vec::new();
    let mut i: usize = from;
    while i < to
        invariant
            from <= i <= to <= v@.len(),
            out@ == v@.subrange(from as int, i as int),
        decreases to - i,
    {
        out.push(v[i]);
        proof {
            assert(out@ =~= v@.subrange(from as int, (i + 1) as int));
        }
        i = i + 1;
    }
    out
}

/// Extracts `v[from..to]` directly as a string.
pub fn string_range(v: &Vec<char>, from: usize, to: usize) -> (s: String)
    requires
        from <= to <= v@.len(),
    ensures
        s@ == v@.subrange(from as int, to as int),
{
    string_of(subrange_of(v, from, to))
}

} // verus!
