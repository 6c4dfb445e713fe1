//! One line of metric text: blank, comment, `# TYPE` declaration, or a
//! sample. A sample line is `name`, an optional `{label="value",...}` list,
//! at least one space, a value token, and an optional integer-millisecond
//! timestamp. Label values know the escapes `\\`, `\"` and `\n`; a repeated
//! label name keeps its first position and the last value written to it.

use vstd::prelude::*;
use vstd::string::StringExecFns;

use crate::chars::{string_of, string_range, subrange_of};
use crate::metrics::{labels_view, MetricKind, Sample, SampleView};
use crate::num::{digits_val, parse_u64_digits};
use crate::scan::{
    lemma_scan_digits_all, scan_digits, scan_label, scan_name, scan_nonws, skip_ws,
    spec_scan_digits, spec_scan_label, spec_scan_name, spec_scan_nonws, spec_skip_ws,
};
use crate::value::{spec_value_ok, spec_value_text, value_ok, value_text};

verus! {

pub ghost enum LineView {
    Blank,
    Comment,
    TypeLine { name: Seq<char>, kind: MetricKind },
    SampleLine { name: Seq<char>, sample: SampleView },
    Bad,
}

/// An accepted line, in executable form.
pub enum Line {
    Blank,
    Comment,
    TypeLine { name: String, kind: MetricKind },
    SampleLine { name: String, sample: Sample },
    Bad,
}

impl View for Line {
    type V = LineView;

    open spec fn view(&self) -> LineView {
        match self {
            Line::Blank => LineView::Blank,
            Line::Comment => LineView::Comment,
            Line::TypeLine { name, kind } => LineView::TypeLine { name: name@, kind: *kind },
            Line::SampleLine { name, sample } => LineView::SampleLine {
                name: name@,
                sample: sample@,
            },
            Line::Bad => LineView::Bad,
        }
    }
}

/// Writes `(k, v)` over the entry named `k`, keeping its position, or appends
/// it at the end when `k` is new.
pub open spec fn spec_upsert_label(
    ls: Seq<(Seq<char>, Seq<char>)>,
    k: Seq<char>,
    v: Seq<char>,
) -> Seq<(Seq<char>, Seq<char>)>
    decreases ls.len(),
{
    if ls.len() == 0 {
        seq![(k, v)]
    } else if ls[0].0 == k {
        seq![(k, v)] + ls.drop_first()
    } else {
        seq![ls[0]] + spec_upsert_label(ls.drop_first(), k, v)
    }
}

pub fn upsert_label(ls: Vec<(String, String)>, k: String, v: String) -> (out: Vec<(String, String)>)
    ensures
        labels_view(out@) == spec_upsert_label(labels_view(ls@), k@, v@),
    decreases ls@.len(),
{
    let mut ls = ls;
    let ghost orig0 = labels_view(ls@);
    if ls.len() == 0 {
        ls.push((k, v));
        proof {
            assert(labels_view(ls@) =~= spec_upsert_label(orig0, k@, v@));
        }
        ls
    } else {
        let ghost orig = labels_view(ls@);
        let head = ls.remove(0);
        proof {
            assert(labels_view(ls@) =~= orig.drop_first());
        }
        if head.0 == k {
            let mut out: Vec<(String, String)> = Vec::new();
            out.push((k, v));
            let mut rest = ls;
            out.append(&mut rest);
            proof {
                assert(labels_view(out@) =~= seq![(k@, v@)] + orig.drop_first());
            }
            out
        } else {
            let rest = upsert_label(ls, k, v);
            let mut out: Vec<(String, String)> = Vec::new();
            out.push(head);
            let mut r2 = rest;
            out.append(&mut r2);
            proof {
                assert(labels_view(out@) =~= seq![orig[0]] + spec_upsert_label(
                    orig.drop_first(),
                    k@,
                    v@,
                ));
            }
            out
        }
    }
}

/// The unescaped content of a quoted label value starting at `i` (just after
/// the opening quote), and the position just after the closing quote.
pub open spec fn spec_string_body(l: Seq<char>, i: int) -> Option<(Seq<char>, int)>
    decreases l.len() - i,
    when 0 <= i <= l.len()
{
    if i >= l.len() {
        None
    } else if l[i] == '"' {
        Some((Seq::empty(), i + 1))
    } else if l[i] == '\\' {
        if i + 1 < l.len() && (l[i + 1] == '\\' || l[i + 1] == '"' || l[i + 1] == 'n') {
            let c = if l[i + 1] == '\\' {
                '\\'
            } else if l[i + 1] == '"' {
                '"'
            } else {
                '\n'
            };
            match spec_string_body(l, i + 2) {
                None => None,
                Some((s, j)) => Some((seq![c] + s, j)),
            }
        } else {
            None
        }
    } else {
        match spec_string_body(l, i + 1) {
            None => None,
            Some((s, j)) => Some((seq![l[i]] + s, j)),
        }
    }
}

pub fn string_body(v: &Vec<char>, i: usize) -> (r: Option<(Vec<char>, usize)>)
    requires
        i <= v@.len(),
    ensures
        r is Some <==> spec_string_body(v@, i as int) is Some,
        r matches Some((s, j)) ==> spec_string_body(v@, i as int) == Some((s@, j as int)) && i < j
            <= v@.len(),
    decreases v@.len() - i,
{
    if i >= v.len() {
        None
    } else if v[i] == '"' {
        let out: Vec<char> = Vec::new();
        Some((out, i + 1))
    } else if v[i] == '\\' {
        if i + 1 < v.len() && (v[i + 1] == '\\' || v[i + 1] == '"' || v[i + 1] == 'n') {
            let c: char = if v[i + 1] == '\\' {
                '\\'
            } else if v[i + 1] == '"' {
                '"'
            } else {
                '\n'
            };
            match string_body(v, i + 2) {
                None => None,
                Some((s, j)) => {
                    let mut s2 = s;
                    let ghost sv = s2@;
                    s2.insert(0, c);
                    proof {
                        assert(s2@ =~= seq![c] + sv);
                    }
                    Some((s2, j))
                },
            }
        } else {
            None
        }
    } else {
        let c: char = v[i];
        match string_body(v, i + 1) {
            None => None,
            Some((s, j)) => {
                let mut s2 = s;
                let ghost sv = s2@;
                s2.insert(0, c);
                proof {
                    assert(s2@ =~= seq![c] + sv);
                }
                Some((s2, j))
            },
        }
    }
}

/// The label pairs from `i` on (just after `{` or after a separating comma),
/// folded into `acc`, and the position just after the closing brace.
pub open spec fn spec_label_pairs(
    l: Seq<char>,
    i: int,
    acc: Seq<(Seq<char>, Seq<char>)>,
) -> Option<(Seq<(Seq<char>, Seq<char>)>, int)>
    decreases l.len() - i,
    when 0 <= i <= l.len()
{
    let k = spec_scan_label(l, i);
    if !(i < k && k + 1 < l.len() && l[k] == '=' && l[k + 1] == '"') {
        None
    } else {
        match spec_string_body(l, k + 2) {
            None => None,
            Some((val, m)) => {
                let acc2 = spec_upsert_label(acc, l.subrange(i, k), val);
                if m < l.len() && l[m] == '}' {
                    Some((acc2, m + 1))
                } else if i < m && m < l.len() && l[m] == ',' {
                    spec_label_pairs(l, m + 1, acc2)
                } else {
                    None
                }
            },
        }
    }
}

pub fn label_pairs(v: &Vec<char>, i: usize, acc: Vec<(String, String)>) -> (r: Option<
    (Vec<(String, String)>, usize),
>)
    requires
        i <= v@.len(),
    ensures
        r is Some <==> spec_label_pairs(v@, i as int, labels_view(acc@)) is Some,
        r matches Some((ls, p)) ==> spec_label_pairs(v@, i as int, labels_view(acc@)) == Some(
            (labels_view(ls@), p as int),
        ) && i < p <= v@.len(),
    decreases v@.len() - i,
{
    let k = scan_label(v, i);
    if !(i < k && k < v.len() && k + 1 < v.len() && v[k] == '=' && v[k + 1] == '"') {
        None
    } else {
        match string_body(v, k + 2) {
            None => None,
            Some((val, m)) => {
                let name = string_range(v, i, k);
                let val_s = string_of(val);
                let acc2 = upsert_label(acc, name, val_s);
                if m < v.len() && v[m] == '}' {
                    Some((acc2, m + 1))
                } else if m < v.len() && v[m] == ',' {
                    label_pairs(v, m + 1, acc2)
                } else {
                    None
                }
            },
        }
    }
}

pub open spec fn spec_kind_of(w: Seq<char>) -> Option<MetricKind> {
    if w == "counter"@ {
        Some(MetricKind::Counter)
    } else if w == "gauge"@ {
        Some(MetricKind::Gauge)
    } else if w == "summary"@ {
        Some(MetricKind::Summary)
    } else if w == "histogram"@ {
        Some(MetricKind::Histogram)
    } else if w == "untyped"@ {
        Some(MetricKind::Untyped)
    } else {
        None
    }
}

fn kind_of(w: &String) -> (r: Option<MetricKind>)
    ensures
        r == spec_kind_of(w@),
{
    if *w == String::from_str("counter") {
        Some(MetricKind::Counter)
    } else if *w == String::from_str("gauge") {
        Some(MetricKind::Gauge)
    } else if *w == String::from_str("summary") {
        Some(MetricKind::Summary)
    } else if *w == String::from_str("histogram") {
        Some(MetricKind::Histogram)
    } else if *w == String::from_str("untyped") {
        Some(MetricKind::Untyped)
    } else {
        None
    }
}

/// What stands after the `TYPE` keyword: a metric name, a kind word, and
/// nothing else but whitespace.
pub open spec fn spec_type_rest(l: Seq<char>, k: int) -> LineView {
    let j = spec_skip_ws(l, k);
    let n2 = spec_scan_name(l, j);
    if !(j > k && n2 > j) {
        LineView::Bad
    } else {
        let m = spec_skip_ws(l, n2);
        let ke = spec_scan_name(l, m);
        if !(m > n2 && ke > m) {
            LineView::Bad
        } else {
            match spec_kind_of(l.subrange(m, ke)) {
                None => LineView::Bad,
                Some(kd) => if spec_skip_ws(l, ke) == l.len() {
                    LineView::TypeLine { name: l.subrange(j, n2), kind: kd }
                } else {
                    LineView::Bad
                },
            }
        }
    }
}

fn type_rest(v: &Vec<char>, k: usize) -> (r: Line)
    requires
        k <= v@.len(),
    ensures
        r@ == spec_type_rest(v@, k as int),
{
    let j = skip_ws(v, k);
    let n2 = scan_name(v, j);
    if !(j > k && n2 > j) {
        Line::Bad
    } else {
        let m = skip_ws(v, n2);
        let ke = scan_name(v, m);
        if !(m > n2 && ke > m) {
            Line::Bad
        } else {
            let w = string_range(v, m, ke);
            match kind_of(&w) {
                None => Line::Bad,
                Some(kd) => {
                    if skip_ws(v, ke) == v.len() {
                        Line::TypeLine { name: string_range(v, j, n2), kind: kd }
                    } else {
                        Line::Bad
                    }
                },
            }
        }
    }
}

/// What stands after the name and label list of a sample line: at least one
/// space, a value token, and an optional timestamp.
pub open spec fn spec_after_labels(
    l: Seq<char>,
    name_s: int,
    name_e: int,
    labels: Seq<(Seq<char>, Seq<char>)>,
    p: int,
) -> LineView {
    let q = spec_skip_ws(l, p);
    if !(q > p && q < l.len()) {
        LineView::Bad
    } else {
        let ve = spec_scan_nonws(l, q);
        let tok = l.subrange(q, ve);
        if !spec_value_ok(tok) {
            LineView::Bad
        } else {
            let r = spec_skip_ws(l, ve);
            if r >= l.len() {
                LineView::SampleLine {
                    name: l.subrange(name_s, name_e),
                    sample: SampleView { labels, timestamp: None, value: spec_value_text(tok) },
                }
            } else {
                let de = spec_scan_digits(l, r);
                if de <= r {
                    LineView::Bad
                } else if digits_val(l.subrange(r, de)) > u64::MAX {
                    LineView::Bad
                } else if spec_skip_ws(l, de) == l.len() {
                    LineView::SampleLine {
                        name: l.subrange(name_s, name_e),
                        sample: SampleView {
                            labels,
                            timestamp: Some(digits_val(l.subrange(r, de)) as u64),
                            value: spec_value_text(tok),
                        },
                    }
                } else {
                    LineView::Bad
                }
            }
        }
    }
}

fn after_labels(
    v: &Vec<char>,
    name_s: usize,
    name_e: usize,
    labels: Vec<(String, String)>,
    p: usize,
) -> (r: Line)
    requires
        name_s <= name_e <= v@.len(),
        p <= v@.len(),
    ensures
        r@ == spec_after_labels(v@, name_s as int, name_e as int, labels_view(labels@), p as int),
{
    let q = skip_ws(v, p);
    if !(q > p && q < v.len()) {
        Line::Bad
    } else {
        let ve = scan_nonws(v, q);
        let tok = subrange_of(v, q, ve);
        if !value_ok(&tok) {
            Line::Bad
        } else {
            let r = skip_ws(v, ve);
            if r >= v.len() {
                Line::SampleLine {
                    name: string_range(v, name_s, name_e),
                    sample: Sample {
                        labels,
                        timestamp: None,
                        value: string_of(value_text(&tok)),
                    },
                }
            } else {
                let de = scan_digits(v, r);
                if de <= r {
                    Line::Bad
                } else {
                    proof {
                        lemma_scan_digits_all(v@, r as int);
                        assert forall|x: int|
                            0 <= x < (de - r) implies crate::chars::is_digit(
                            #[trigger] v@.subrange(r as int, de as int)[x],
                        ) by {
                            assert(v@.subrange(r as int, de as int)[x] == v@[r + x]);
                        }
                    }
                    match parse_u64_digits(v, r, de) {
                        None => Line::Bad,
                        Some(ts) => {
                            proof {
                                crate::num::lemma_digits_val_nonneg(
                                    v@.subrange(r as int, de as int),
                                );
                            }
                            if skip_ws(v, de) == v.len() {
                                Line::SampleLine {
                                    name: string_range(v, name_s, name_e),
                                    sample: Sample {
                                        labels,
                                        timestamp: Some(ts),
                                        value: string_of(value_text(&tok)),
                                    },
                                }
                            } else {
                                Line::Bad
                            }
                        },
                    }
                }
            }
        }
    }
}

/// A sample line starting at `i`: a metric name, an optional brace-enclosed
/// label list, then value and optional timestamp.
pub open spec fn spec_sample_line(l: Seq<char>, i: int) -> LineView {
    let k = spec_scan_name(l, i);
    if k <= i {
        LineView::Bad
    } else if k < l.len() && l[k] == '{' {
        if k + 1 < l.len() && l[k + 1] == '}' {
            spec_after_labels(l, i, k, Seq::empty(), k + 2)
        } else {
            match spec_label_pairs(l, k + 1, Seq::empty()) {
                None => LineView::Bad,
                Some((ls, p)) => spec_after_labels(l, i, k, ls, p),
            }
        }
    } else {
        spec_after_labels(l, i, k, Seq::empty(), k)
    }
}

fn sample_line(v: &Vec<char>, i: usize) -> (r: Line)
    requires
        i <= v@.len(),
    ensures
        r@ == spec_sample_line(v@, i as int),
{
    let k = scan_name(v, i);
    if k <= i {
        Line::Bad
    } else if k < v.len() && v[k] == '{' {
        if k + 1 < v.len() && v[k + 1] == '}' {
            let labels: Vec<(String, String)> = Vec::new();
            proof {
                assert(labels_view(labels@) =~= Seq::<(Seq<char>, Seq<char>)>::empty());
            }
            after_labels(v, i, k, labels, k + 2)
        } else {
            let empty_acc: Vec<(String, String)> = Vec::new();
            proof {
                assert(labels_view(empty_acc@) =~= Seq::<(Seq<char>, Seq<char>)>::empty());
            }
            match label_pairs(v, k + 1, empty_acc) {
                None => Line::Bad,
                Some((ls, p)) => after_labels(v, i, k, ls, p),
            }
        }
    } else {
        let labels: Vec<(String, String)> = Vec::new();
        proof {
            assert(labels_view(labels@) =~= Seq::<(Seq<char>, Seq<char>)>::empty());
        }
        after_labels(v, i, k, labels, k)
    }
}

/// The reading of one whole line.
pub open spec fn spec_line(l: Seq<char>) -> LineView {
    let i = spec_skip_ws(l, 0);
    if i >= l.len() {
        LineView::Blank
    } else if l[i] == '#' {
        let j = spec_skip_ws(l, i + 1);
        let k = spec_scan_name(l, j);
        if l.subrange(j, k) == "TYPE"@ {
            spec_type_rest(l, k)
        } else {
            LineView::Comment
        }
    } else {
        spec_sample_line(l, i)
    }
}

pub fn parse_line(v: &Vec<char>) -> (r: Line)
    ensures
        r@ == spec_line(v@),
{
    let i = skip_ws(v, 0);
    if i >= v.len() {
        Line::Blank
    } else if v[i] == '#' {
        let j = skip_ws(v, i + 1);
        let k = scan_name(v, j);
        let kw = string_range(v, j, k);
        if kw == String::from_str("TYPE") {
            type_rest(v, k)
        } else {
            Line::Comment
        }
    } else {
        sample_line(v, i)
    }
}

} // verus!
