//! From a whole response body to metric groups. Lines are read in order; a
//! `TYPE` line opens a group of its kind, samples join the open group when
//! their name belongs to it (for summaries and histograms also under the
//! `_sum`, `_count` and `_bucket` suffixes), and a sample with no open group
//! of its name opens an `Untyped` group. Within a group, one entry is kept
//! per (label list, timestamp) key, the last value written winning. A line
//! that fits no reading makes the whole body unparseable.

use vstd::prelude::*;
use vstd::string::StringExecFns;

use crate::chars::chars_of;
use crate::line::{parse_line, spec_line, Line, LineView};
use crate::metrics::{
    groups_view, labels_view, samples_view, GroupView, MetricGroup, MetricKind, Sample, SampleView,
};
use crate::scan::{lines_view, spec_split_from, split_from};

verus! {

/// Whether two label lists carry the same pairs in the same order.
pub fn labels_eq(a: &Vec<(String, String)>, b: &Vec<(String, String)>) -> (r: bool)
    ensures
        r == (labels_view(a@) == labels_view(b@)),
{
    if a.len() != b.len() {
        return false;
    }
    let mut i: usize = 0;
    while i < a.len()
        invariant
            i <= a@.len(),
            a@.len() == b@.len(),
            forall|j: int|
                0 <= j < i ==> #[trigger] labels_view(a@)[j] == labels_view(b@)[j],
        decreases a@.len() - i,
    {
        if !(a[i].0 == b[i].0 && a[i].1 == b[i].1) {
            proof {
                assert(labels_view(a@)[i as int] != labels_view(b@)[i as int]);
            }
            return false;
        }
        i = i + 1;
    }
    proof {
        assert(labels_view(a@) =~= labels_view(b@));
    }
    true
}

/// Whether two samples share their (label list, timestamp) key.
pub fn same_key(a: &Sample, b: &Sample) -> (r: bool)
    ensures
        r == (a@.labels == b@.labels && a@.timestamp == b@.timestamp),
{
    let ts_eq: bool = match (a.timestamp, b.timestamp) {
        (None, None) => true,
        (Some(x), Some(y)) => x == y,
        _ => false,
    };
    ts_eq && labels_eq(&a.labels, &b.labels)
}

/// Writes `s` over the entry of its key, keeping that entry's position, or
/// appends it when the key is new.
pub open spec fn spec_upsert_sample(ss: Seq<SampleView>, s: SampleView) -> Seq<SampleView>
    decreases ss.len(),
{
    if ss.len() == 0 {
        seq![s]
    } else if ss[0].labels == s.labels && ss[0].timestamp == s.timestamp {
        seq![s] + ss.drop_first()
    } else {
        seq![ss[0]] + spec_upsert_sample(ss.drop_first(), s)
    }
}

pub fn upsert_sample(ss: Vec<Sample>, s: Sample) -> (out: Vec<Sample>)
    ensures
        samples_view(out@) == spec_upsert_sample(samples_view(ss@), s@),
    decreases ss@.len(),
{
    let mut ss = ss;
    let ghost orig = samples_view(ss@);
    if ss.len() == 0 {
        ss.push(s);
        proof {
            assert(samples_view(ss@) =~= spec_upsert_sample(orig, s@));
        }
        ss
    } else {
        let head = ss.remove(0);
        proof {
            assert(samples_view(ss@) =~= orig.drop_first());
        }
        if same_key(&head, &s) {
            let mut out: Vec<Sample> = Vec::new();
            out.push(s);
            let mut rest = ss;
            out.append(&mut rest);
            proof {
                assert(samples_view(out@) =~= seq![s@] + orig.drop_first());
            }
            out
        } else {
            let rest = upsert_sample(ss, s);
            let mut out: Vec<Sample> = Vec::new();
            out.push(head);
            let mut r2 = rest;
            out.append(&mut r2);
            proof {
                assert(samples_view(out@) =~= seq![orig[0]] + spec_upsert_sample(
                    orig.drop_first(),
                    s@,
                ));
            }
            out
        }
    }
}

/// Whether a sample named `name` belongs to the open group `g`.
pub open spec fn spec_belongs(name: Seq<char>, g: GroupView) -> bool {
    name == g.name || ((g.kind == MetricKind::Summary || g.kind == MetricKind::Histogram) && (
    name == g.name + "_sum"@ || name == g.name + "_count"@ || name == g.name + "_bucket"@))
}

fn concat_eq(n: &String, base: &String, suffix: &str) -> (b: bool)
    ensures
        b == (n@ == base@ + suffix@),
{
    let mut t = base.clone();
    t.append(suffix);
    *n == t
}

pub fn belongs(name: &String, g: &MetricGroup) -> (b: bool)
    ensures
        b == spec_belongs(name@, g@),
{
    if *name == g.name {
        true
    } else {
        let suffixed: bool = match g.kind {
            MetricKind::Summary => true,
            MetricKind::Histogram => true,
            _ => false,
        };
        suffixed && (concat_eq(name, &g.name, "_sum") || concat_eq(name, &g.name, "_count")
            || concat_eq(name, &g.name, "_bucket"))
    }
}

pub open spec fn spec_close(acc: Seq<GroupView>, cur: Option<GroupView>) -> Seq<GroupView> {
    match cur {
        None => acc,
        Some(g) => acc.push(g),
    }
}

pub open spec fn opt_group_view(c: Option<MetricGroup>) -> Option<GroupView> {
    match c {
        None => None,
        Some(g) => Some(g@),
    }
}

/// The groups accumulated by reading `lines[i..]` with `acc` closed and `cur`
/// open, or nothing if a bad line is met.
pub open spec fn spec_fold(
    lines: Seq<LineView>,
    i: int,
    acc: Seq<GroupView>,
    cur: Option<GroupView>,
) -> Option<Seq<GroupView>>
    decreases lines.len() - i,
    when 0 <= i
{
    if i >= lines.len() {
        Some(spec_close(acc, cur))
    } else {
        match lines[i] {
            LineView::Blank => spec_fold(lines, i + 1, acc, cur),
            LineView::Comment => spec_fold(lines, i + 1, acc, cur),
            LineView::Bad => None,
            LineView::TypeLine { name, kind } => spec_fold(
                lines,
                i + 1,
                spec_close(acc, cur),
                Some(GroupView { name, kind, samples: Seq::empty() }),
            ),
            LineView::SampleLine { name, sample } => match cur {
                Some(g) => if spec_belongs(name, g) {
                    spec_fold(
                        lines,
                        i + 1,
                        acc,
                        Some(
                            GroupView {
                                name: g.name,
                                kind: g.kind,
                                samples: spec_upsert_sample(g.samples, sample),
                            },
                        ),
                    )
                } else {
                    spec_fold(
                        lines,
                        i + 1,
                        acc.push(g),
                        Some(
                            GroupView { name, kind: MetricKind::Untyped, samples: seq![sample] },
                        ),
                    )
                },
                None => spec_fold(
                    lines,
                    i + 1,
                    acc,
                    Some(GroupView { name, kind: MetricKind::Untyped, samples: seq![sample] }),
                ),
            },
        }
    }
}

/// The metric groups of a whole body, or nothing if any line is bad.
pub open spec fn spec_parse_text(s: Seq<char>) -> Option<Seq<GroupView>> {
    spec_fold(
        spec_split_from(s, 0).map_values(|l: Seq<char>| spec_line(l)),
        0,
        Seq::empty(),
        None,
    )
}

fn parse_metric_body(v: &Vec<char>) -> (r: Option<Vec<MetricGroup>>)
    ensures
        r is Some <==> spec_parse_text(v@) is Some,
        r matches Some(gs) ==> Some(groups_view(gs@)) == spec_parse_text(v@),
{
    let lines = split_from(v, 0);
    let ghost lviews = lines_view(lines@).map_values(|l: Seq<char>| spec_line(l));
    let mut acc: Vec<MetricGroup> = Vec::new();
    let mut cur: Option<MetricGroup> = None;
    let mut i: usize = 0;
    proof {
        assert(groups_view(acc@) =~= Seq::<GroupView>::empty());
    }
    while i < lines.len()
        invariant
            i <= lines@.len(),
            lines_view(lines@) == spec_split_from(v@, 0),
            lviews == lines_view(lines@).map_values(|l: Seq<char>| spec_line(l)),
            spec_parse_text(v@) == spec_fold(lviews, i as int, groups_view(acc@), opt_group_view(cur)),
        decreases lines@.len() - i,
    {
        let ghost acc0 = groups_view(acc@);
        let ghost cur0 = opt_group_view(cur);
        let line = parse_line(&lines[i]);
        proof {
            assert(line@ == lviews[i as int]);
        }
        match line {
            Line::Blank => {},
            Line::Comment => {},
            Line::Bad => {
                return None;
            },
            Line::TypeLine { name, kind } => {
                let prev = cur;
                match prev {
                    Some(g) => {
                        acc.push(g);
                        proof {
                            assert(groups_view(acc@) =~= spec_close(acc0, cur0));
                        }
                    },
                    None => {},
                }
                let samples: Vec<Sample> = Vec::new();
                proof {
                    assert(samples_view(samples@) =~= Seq::<SampleView>::empty());
                }
                cur = Some(MetricGroup { name, kind, samples });
            },
            Line::SampleLine { name, sample } => {
                let prev = cur;
                match prev {
                    Some(g) => {
                        if belongs(&name, &g) {
                            let MetricGroup { name: gname, kind: gkind, samples } = g;
                            let samples2 = upsert_sample(samples, sample);
                            cur = Some(MetricGroup { name: gname, kind: gkind, samples: samples2 });
                        } else {
                            acc.push(g);
                            proof {
                                assert(groups_view(acc@) =~= acc0.push(cur0->Some_0));
                            }
                            let mut ss: Vec<Sample> = Vec::new();
                            ss.push(sample);
                            proof {
                                assert(samples_view(ss@) =~= seq![ss@[0]@]);
                            }
                            cur = Some(
                                MetricGroup { name, kind: MetricKind::Untyped, samples: ss },
                            );
                        }
                    },
                    None => {
                        let mut ss: Vec<Sample> = Vec::new();
                        ss.push(sample);
                        proof {
                            assert(samples_view(ss@) =~= seq![ss@[0]@]);
                        }
                        cur = Some(MetricGroup { name, kind: MetricKind::Untyped, samples: ss });
                    },
                }
            },
        }
        i = i + 1;
    }
    let prev = cur;
    let mut out = acc;
    let ghost accv = groups_view(out@);
    let ghost curv = opt_group_view(prev);
    match prev {
        Some(g) => {
            out.push(g);
        },
        None => {},
    }
    proof {
        assert(groups_view(out@) =~= spec_close(accv, curv));
    }
    Some(out)
}

/// Reads a whole scrape response body as metric text.
pub fn parse_metric_text(body: &str) -> (r: Option<Vec<MetricGroup>>)
    ensures
        r is Some <==> spec_parse_text(body@) is Some,
        r matches Some(gs) ==> Some(groups_view(gs@)) == spec_parse_text(body@),
{
    let v = chars_of(body);
    parse_metric_body(&v)
}

} // verus!
