//! The metric data yielded by parsing one scrape response: groups of samples,
//! each group carrying a kind and a name. Only `Counter` and `Gauge` groups
//! ever contribute to the capture output; the other kinds are represented so
//! that their lines are accepted and then skipped.

use vstd::prelude::*;

verus! {

/// The kind of a metric group, as declared by its `TYPE` line (or `Untyped`
/// when samples appear without one).
#[derive(Clone, Copy, Debug, PartialEq, Eq, Structural)]
pub enum MetricKind {
    Counter,
    Gauge,
    Summary,
    Histogram,
    Untyped,
}

/// One sample of a group: its label pairs in first-appearance order with
/// unique label names, its own timestamp in integer milliseconds when the
/// source line carried one, and its value as the JSON token that represents
/// it (a decimal number, or `null` for `NaN` and the infinities).
#[derive(Debug)]
pub struct Sample {
    pub labels: Vec<(String, String)>,
    pub timestamp: Option<u64>,
    pub value: String,
}

/// The mathematical content of a label list: each pair as character
/// sequences, in the same order.
pub open spec fn labels_view(ls: Seq<(String, String)>) -> Seq<(Seq<char>, Seq<char>)> {
    ls.map_values(|p: (String, String)| (p.0@, p.1@))
}

pub ghost struct SampleView {
    pub labels: Seq<(Seq<char>, Seq<char>)>,
    pub timestamp: Option<u64>,
    pub value: Seq<char>,
}

impl View for Sample {
    type V = SampleView;

    open spec fn view(&self) -> SampleView {
        SampleView { labels: labels_view(self.labels@), timestamp: self.timestamp, value: self.value@ }
    }
}

/// One metric group: a name, a kind, and the samples collected under it, in
/// first-appearance order with one entry per (label list, timestamp) key.
#[derive(Debug)]
pub struct MetricGroup {
    pub name: String,
    pub kind: MetricKind,
    pub samples: Vec<Sample>,
}

pub ghost struct GroupView {
    pub name: Seq<char>,
    pub kind: MetricKind,
    pub samples: Seq<SampleView>,
}

pub open spec fn samples_view(ss: Seq<Sample>) -> Seq<SampleView> {
    ss.map_values(|s: Sample| s@)
}

impl View for MetricGroup {
    type V = GroupView;

    open spec fn view(&self) -> GroupView {
        GroupView { name: self.name@, kind: self.kind, samples: samples_view(self.samples@) }
    }
}

pub open spec fn groups_view(gs: Seq<MetricGroup>) -> Seq<GroupView> {
    gs.map_values(|g: MetricGroup| g@)
}

} // verus!
