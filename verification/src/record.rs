//! The persisted unit: one observation of one sample, tagged with run,
//! experiment, variant, target and cycle metadata, and its rendering as one
//! self-describing JSON line. The line layout is the durable contract with
//! downstream analysis tooling: field names and order never change.

use vstd::prelude::*;
use vstd::string::StringExecFns;

use crate::chars::{chars_of, string_of};
use crate::config::Variant;
use crate::metrics::{labels_view, MetricKind};
use crate::num::{render_u128, render_u64, spec_dec};

verus! {

/// One capture record. `time` is the sample's own timestamp when it carried
/// one, otherwise the wall-clock capture of its cycle; `fetch_index` is the
/// zero-based cycle counter; `value` is the JSON token of the sample value.
#[derive(Debug)]
pub struct OutputRecord {
    pub run_id: String,
    pub experiment: String,
    pub variant: Variant,
    pub target_id: String,
    pub time: u128,
    pub fetch_index: u64,
    pub metric_name: String,
    pub metric_kind: MetricKind,
    pub metric_labels: Vec<(String, String)>,
    pub value: String,
}

pub ghost struct RecordView {
    pub run_id: Seq<char>,
    pub experiment: Seq<char>,
    pub variant: Variant,
    pub target_id: Seq<char>,
    pub time: u128,
    pub fetch_index: u64,
    pub metric_name: Seq<char>,
    pub metric_kind: MetricKind,
    pub metric_labels: Seq<(Seq<char>, Seq<char>)>,
    pub value: Seq<char>,
}

impl View for OutputRecord {
    type V = RecordView;

    open spec fn view(&self) -> RecordView {
        RecordView {
            run_id: self.run_id@,
            experiment: self.experiment@,
            variant: self.variant,
            target_id: self.target_id@,
            time: self.time,
            fetch_index: self.fetch_index,
            metric_name: self.metric_name@,
            metric_kind: self.metric_kind,
            metric_labels: labels_view(self.metric_labels@),
            value: self.value@,
        }
    }
}

pub open spec fn spec_hex_digit(d: int) -> char {
    if d == 0 {
        '0'
    } else if d == 1 {
        '1'
    } else if d == 2 {
        '2'
    } else if d == 3 {
        '3'
    } else if d == 4 {
        '4'
    } else if d == 5 {
        '5'
    } else if d == 6 {
        '6'
    } else if d == 7 {
        '7'
    } else if d == 8 {
        '8'
    } else if d == 9 {
        '9'
    } else if d == 10 {
        'a'
    } else if d == 11 {
        'b'
    } else if d == 12 {
        'c'
    } else if d == 13 {
        'd'
    } else if d == 14 {
        'e'
    } else {
        'f'
    }
}

/// How one character appears inside a JSON string: the quote, the backslash
/// and the control characters are escaped, everything else stands as itself.
pub open spec fn spec_esc_char(c: char) -> Seq<char> {
    if c == '"' {
        seq!['\\', '"']
    } else if c == '\\' {
        seq!['\\', '\\']
    } else if c == '\n' {
        seq!['\\', 'n']
    } else if c == '\r' {
        seq!['\\', 'r']
    } else if c == '\t' {
        seq!['\\', 't']
    } else if c as u32 == 8 {
        seq!['\\', 'b']
    } else if c as u32 == 12 {
        seq!['\\', 'f']
    } else if (c as u32) < 32 {
        seq![
            '\\',
            'u',
            '0',
            '0',
            spec_hex_digit((c as u32) as int / 16),
            spec_hex_digit((c as u32) as int % 16),
        ]
    } else {
        seq![c]
    }
}

pub open spec fn spec_escape_from(l: Seq<char>, i: int) -> Seq<char>
    decreases l.len() - i,
    when 0 <= i <= l.len()
{
    if i >= l.len() {
        Seq::empty()
    } else {
        spec_esc_char(l[i]) + spec_escape_from(l, i + 1)
    }
}

/// The JSON string token for `s`: quotes around the escaped characters.
pub open spec fn spec_quoted(s: Seq<char>) -> Seq<char> {
    seq!['"'] + spec_escape_from(s, 0) + seq!['"']
}

fn hex_digit(d: u32) -> (c: char)
    requires
        d < 16,
    ensures
        c == spec_hex_digit(d as int),
{
    if d == 0 {
        '0'
    } else if d == 1 {
        '1'
    } else if d == 2 {
        '2'
    } else if d == 3 {
        '3'
    } else if d == 4 {
        '4'
    } else if d == 5 {
        '5'
    } else if d == 6 {
        '6'
    } else if d == 7 {
        '7'
    } else if d == 8 {
        '8'
    } else if d == 9 {
        '9'
    } else if d == 10 {
        'a'
    } else if d == 11 {
        'b'
    } else if d == 12 {
        'c'
    } else if d == 13 {
        'd'
    } else if d == 14 {
        'e'
    } else {
        'f'
    }
}

fn esc_char(c: char) -> (out: Vec<char>)
    ensures
        out@ == spec_esc_char(c),
{
    let mut out: Vec<char> = Vec::new();
    if c == '"' {
        out.push('\\');
        out.push('"');
        proof {
            assert(out@ =~= spec_esc_char(c));
        }
    } else if c == '\\' {
        out.push('\\');
        out.push('\\');
        proof {
            assert(out@ =~= spec_esc_char(c));
        }
    } else if c == '\n' {
        out.push('\\');
        out.push('n');
        proof {
            assert(out@ =~= spec_esc_char(c));
        }
    } else if c == '\r' {
        out.push('\\');
        out.push('r');
        proof {
            assert(out@ =~= spec_esc_char(c));
        }
    } else if c == '\t' {
        out.push('\\');
        out.push('t');
        proof {
            assert(out@ =~= spec_esc_char(c));
        }
    } else if c as u32 == 8 {
        out.push('\\');
        out.push('b');
        proof {
            assert(out@ =~= spec_esc_char(c));
        }
    } else if c as u32 == 12 {
        out.push('\\');
        out.push('f');
        proof {
            assert(out@ =~= spec_esc_char(c));
        }
    } else if (c as u32) < 32 {
        let d: u32 = c as u32;
        proof {
            assert(d < 32);
        }
        out.push('\\');
        out.push('u');
        out.push('0');
        out.push('0');
        out.push(hex_digit(d / 16));
        out.push(hex_digit(d % 16));
        proof {
            assert(out@ =~= spec_esc_char(c));
        }
    } else {
        out.push(c);
        proof {
            assert(out@ =~= spec_esc_char(c));
        }
    }
    out
}

fn escape_from(v: &Vec<char>, i: usize) -> (out: Vec<char>)
    requires
        i <= v@.len(),
    ensures
        out@ == spec_escape_from(v@, i as int),
    decreases v@.len() - i,
{
    if i >= v.len() {
        Vec::new()
    } else {
        let mut out = esc_char(v[i]);
        let mut rest = escape_from(v, i + 1);
        out.append(&mut rest);
        out
    }
}

/// The JSON string token for `s`.
pub fn quoted_chars(s: &str) -> (out: Vec<char>)
    ensures
        out@ == spec_quoted(s@),
{
    let v = chars_of(s);
    let mut out: Vec<char> = Vec::new();
    out.push('"');
    let mut mid = escape_from(&v, 0);
    out.append(&mut mid);
    out.push('"');
    proof {
        assert(out@ =~= seq!['"'] + spec_escape_from(s@, 0) + seq!['"']);
    }
    out
}

pub open spec fn spec_variant_text(v: Variant) -> Seq<char> {
    match v {
        Variant::Baseline => "baseline"@,
        Variant::Comparison => "comparison"@,
    }
}

pub fn variant_text(v: Variant) -> (s: String)
    ensures
        s@ == spec_variant_text(v),
{
    match v {
        Variant::Baseline => String::from_str("baseline"),
        Variant::Comparison => String::from_str("comparison"),
    }
}

pub open spec fn spec_kind_text(k: MetricKind) -> Seq<char> {
    match k {
        MetricKind::Counter => "counter"@,
        MetricKind::Gauge => "gauge"@,
        MetricKind::Summary => "summary"@,
        MetricKind::Histogram => "histogram"@,
        MetricKind::Untyped => "untyped"@,
    }
}

pub fn kind_text(k: MetricKind) -> (s: String)
    ensures
        s@ == spec_kind_text(k),
{
    match k {
        MetricKind::Counter => String::from_str("counter"),
        MetricKind::Gauge => String::from_str("gauge"),
        MetricKind::Summary => String::from_str("summary"),
        MetricKind::Histogram => String::from_str("histogram"),
        MetricKind::Untyped => String::from_str("untyped"),
    }
}

/// The label pairs as a JSON object body, in stored order.
pub open spec fn spec_labels_items(ls: Seq<(Seq<char>, Seq<char>)>, i: int) -> Seq<char>
    decreases ls.len() - i,
    when 0 <= i
{
    if i >= ls.len() {
        Seq::empty()
    } else {
        let pair = spec_quoted(ls[i].0) + seq![':'] + spec_quoted(ls[i].1);
        if i + 1 < ls.len() {
            pair + seq![','] + spec_labels_items(ls, i + 1)
        } else {
            pair
        }
    }
}

pub open spec fn spec_labels_obj(ls: Seq<(Seq<char>, Seq<char>)>) -> Seq<char> {
    seq!['{'] + spec_labels_items(ls, 0) + seq!['}']
}

fn labels_items(ls: &Vec<(String, String)>, i: usize) -> (out: Vec<char>)
    requires
        i <= ls@.len(),
    ensures
        out@ == spec_labels_items(labels_view(ls@), i as int),
    decreases ls@.len() - i,
{
    if i >= ls.len() {
        Vec::new()
    } else {
        let mut out = quoted_chars(ls[i].0.as_str());
        out.push(':');
        let mut val = quoted_chars(ls[i].1.as_str());
        out.append(&mut val);
        if i + 1 < ls.len() {
            out.push(',');
            let mut rest = labels_items(ls, i + 1);
            out.append(&mut rest);
            proof {
                assert(out@ =~= (spec_quoted(labels_view(ls@)[i as int].0) + seq![':']
                    + spec_quoted(labels_view(ls@)[i as int].1)) + seq![','] + spec_labels_items(
                    labels_view(ls@),
                    i + 1,
                ));
            }
            out
        } else {
            proof {
                assert(out@ =~= spec_quoted(labels_view(ls@)[i as int].0) + seq![':']
                    + spec_quoted(labels_view(ls@)[i as int].1));
            }
            out
        }
    }
}

fn labels_obj(ls: &Vec<(String, String)>) -> (s: String)
    ensures
        s@ == spec_labels_obj(labels_view(ls@)),
{
    let mut out: Vec<char> = Vec::new();
    out.push('{');
    let mut mid = labels_items(ls, 0);
    out.append(&mut mid);
    out.push('}');
    proof {
        assert(out@ =~= seq!['{'] + spec_labels_items(labels_view(ls@), 0) + seq!['}']);
    }
    string_of(out)
}

/// The one line written for a record: a JSON object of its fields in fixed
/// order, closed by a newline.
pub open spec fn spec_record_line(r: RecordView) -> Seq<char> {
    "{\"run_id\":"@ + spec_quoted(r.run_id) + ",\"experiment\":"@ + spec_quoted(r.experiment)
        + ",\"variant\":"@ + spec_quoted(spec_variant_text(r.variant)) + ",\"target_id\":"@
        + spec_quoted(r.target_id) + ",\"time\":"@ + spec_dec(r.time as int) + ",\"fetch_index\":"@
        + spec_dec(r.fetch_index as int) + ",\"metric_name\":"@ + spec_quoted(r.metric_name)
        + ",\"metric_kind\":"@ + spec_quoted(spec_kind_text(r.metric_kind)) + ",\"metric_labels\":"@
        + spec_labels_obj(r.metric_labels) + ",\"value\":"@ + r.value + "}\n"@
}

/// Renders one record as its capture line.
pub fn render_record(r: &OutputRecord) -> (s: String)
    ensures
        s@ == spec_record_line(r@),
{
    let mut s = String::new();
    s.append("{\"run_id\":");
    let q1 = string_of(quoted_chars(r.run_id.as_str()));
    s.append(q1.as_str());
    s.append(",\"experiment\":");
    let q2 = string_of(quoted_chars(r.experiment.as_str()));
    s.append(q2.as_str());
    s.append(",\"variant\":");
    let vt = variant_text(r.variant);
    let q3 = string_of(quoted_chars(vt.as_str()));
    s.append(q3.as_str());
    s.append(",\"target_id\":");
    let q4 = string_of(quoted_chars(r.target_id.as_str()));
    s.append(q4.as_str());
    s.append(",\"time\":");
    let t = render_u128(r.time);
    s.append(t.as_str());
    s.append(",\"fetch_index\":");
    let f = render_u64(r.fetch_index);
    s.append(f.as_str());
    s.append(",\"metric_name\":");
    let q5 = string_of(quoted_chars(r.metric_name.as_str()));
    s.append(q5.as_str());
    s.append(",\"metric_kind\":");
    let kt = kind_text(r.metric_kind);
    let q6 = string_of(quoted_chars(kt.as_str()));
    s.append(q6.as_str());
    s.append(",\"metric_labels\":");
    let lo = labels_obj(&r.metric_labels);
    s.append(lo.as_str());
    s.append(",\"value\":");
    s.append(r.value.as_str());
    s.append("}\n");
    s
}

} // verus!
