//! The mutable half of a run: the identity generated once at start, the
//! strictly increasing cycle counter, and the work of one cycle — turning
//! each target's response body (or its absence, after a transport failure)
//! into the capture lines to append. A body that does not parse is fatal to
//! the run; an absent body only silences its own target for the cycle.

use vstd::prelude::*;

use crate::config::Variant;
use crate::errors::Error;
use crate::metrics::{groups_view, GroupView, MetricGroup, MetricKind, SampleView};
use crate::parse::{parse_metric_text, spec_parse_text};
use crate::record::{render_record, spec_record_line, OutputRecord, RecordView};
use crate::worker::{targets_views, Worker};

verus! {

/// Relies on `uuid::Uuid::new_v4` and its `Display`: a fresh random
/// identifier, rendered in the canonical hyphenated form of 36 characters.
/// Nothing more is promised of a random value.
#[verifier::external_body]
fn fresh_run_id() -> (s: String)
    ensures
        s@.len() == 36,
{
    uuid::Uuid::new_v4().to_string()
}

/// The per-run state: the identity shared by every record of the run, and
/// the index of the next cycle.
pub struct Run {
    pub run_id: String,
    pub next_index: u64,
}

impl Run {
    /// Opens a run: one fresh identity, cycles numbered from zero.
    pub fn start() -> (r: Run)
        ensures
            r.next_index == 0,
            r.run_id@.len() == 36,
    {
        Run { run_id: fresh_run_id(), next_index: 0 }
    }
}

/// The record built for one sample of a Counter or Gauge group: the sample's
/// own timestamp wins over the cycle's wall clock.
pub open spec fn spec_sample_record(
    run_id: Seq<char>,
    experiment: Seq<char>,
    variant: Variant,
    target_id: Seq<char>,
    now: u128,
    idx: u64,
    gname: Seq<char>,
    kind: MetricKind,
    s: SampleView,
) -> RecordView {
    RecordView {
        run_id,
        experiment,
        variant,
        target_id,
        time: match s.timestamp {
            Some(t) => t as u128,
            None => now,
        },
        fetch_index: idx,
        metric_name: gname,
        metric_kind: kind,
        metric_labels: s.labels,
        value: s.value,
    }
}

/// The records of one group: one per sample for Counter and Gauge groups, in
/// sample order; nothing for any other kind.
pub open spec fn spec_group_records(
    run_id: Seq<char>,
    experiment: Seq<char>,
    variant: Variant,
    target_id: Seq<char>,
    now: u128,
    idx: u64,
    g: GroupView,
) -> Seq<RecordView> {
    if g.kind == MetricKind::Counter || g.kind == MetricKind::Gauge {
        g.samples.map_values(
            |s: SampleView|
                spec_sample_record(
                    run_id,
                    experiment,
                    variant,
                    target_id,
                    now,
                    idx,
                    g.name,
                    g.kind,
                    s,
                ),
        )
    } else {
        Seq::empty()
    }
}

/// The records of the groups `gs[i..]`, in group order.
pub open spec fn spec_groups_records(
    run_id: Seq<char>,
    experiment: Seq<char>,
    variant: Variant,
    target_id: Seq<char>,
    now: u128,
    idx: u64,
    gs: Seq<GroupView>,
    i: int,
) -> Seq<RecordView>
    decreases gs.len() - i,
    when 0 <= i
{
    if i >= gs.len() {
        Seq::empty()
    } else {
        spec_group_records(run_id, experiment, variant, target_id, now, idx, gs[i])
            + spec_groups_records(run_id, experiment, variant, target_id, now, idx, gs, i + 1)
    }
}

pub open spec fn records_view(rs: Seq<OutputRecord>) -> Seq<RecordView> {
    rs.map_values(|r: OutputRecord| r@)
}

fn clone_labels(ls: &Vec<(String, String)>) -> (out: Vec<(String, String)>)
    ensures
        out@ == ls@,
{
    let mut out: Vec<(String, String)> = Vec::new();
    let mut i: usize = 0;
    while i < ls.len()
        invariant
            i <= ls@.len(),
            out@.len() == i,
            forall|j: int| 0 <= j < i ==> #[trigger] out@[j] == ls@[j],
        decreases ls@.len() - i,
    {
        out.push((ls[i].0.clone(), ls[i].1.clone()));
        i = i + 1;
    }
    proof {
        assert(out@ =~= ls@);
    }
    out
}

/// Builds the records of all groups of one target's parsed body.
pub fn records_for_groups(
    run_id: &String,
    experiment: &String,
    variant: Variant,
    target_id: &String,
    now: u128,
    idx: u64,
    groups: &Vec<MetricGroup>,
) -> (out: Vec<OutputRecord>)
    ensures
        records_view(out@) == spec_groups_records(
            run_id@,
            experiment@,
            variant,
            target_id@,
            now,
            idx,
            groups_view(groups@),
            0,
        ),
{
    let ghost gv = groups_view(groups@);
    let mut out: Vec<OutputRecord> = Vec::new();
    let mut i: usize = 0;
    proof {
        assert(records_view(out@) + spec_groups_records(
            run_id@,
            experiment@,
            variant,
            target_id@,
            now,
            idx,
            gv,
            0,
        ) =~= spec_groups_records(run_id@, experiment@, variant, target_id@, now, idx, gv, 0));
    }
    while i < groups.len()
        invariant
            i <= groups@.len(),
            gv == groups_view(groups@),
            records_view(out@) + spec_groups_records(
                run_id@,
                experiment@,
                variant,
                target_id@,
                now,
                idx,
                gv,
                i as int,
            ) == spec_groups_records(run_id@, experiment@, variant, target_id@, now, idx, gv, 0),
        decreases groups@.len() - i,
    {
        let ghost out0 = records_view(out@);
        let ghost grecs = spec_group_records(
            run_id@,
            experiment@,
            variant,
            target_id@,
            now,
            idx,
            gv[i as int],
        );
        let g = &groups[i];
        let produce: bool = match g.kind {
            MetricKind::Counter => true,
            MetricKind::Gauge => true,
            _ => false,
        };
        if produce {
            let mut k: usize = 0;
            while k < g.samples.len()
                invariant
                    k <= g.samples@.len(),
                    gv == groups_view(groups@),
                    i < groups@.len(),
                    g == &groups@[i as int],
                    grecs == spec_group_records(
                        run_id@,
                        experiment@,
                        variant,
                        target_id@,
                        now,
                        idx,
                        gv[i as int],
                    ),
                    grecs.len() == g.samples@.len(),
                    records_view(out@) == out0 + grecs.take(k as int),
                decreases g.samples@.len() - k,
            {
                let s = &g.samples[k];
                let rec = OutputRecord {
                    run_id: run_id.clone(),
                    experiment: experiment.clone(),
                    variant,
                    target_id: target_id.clone(),
                    time: match s.timestamp {
                        Some(t) => t as u128,
                        None => now,
                    },
                    fetch_index: idx,
                    metric_name: g.name.clone(),
                    metric_kind: g.kind,
                    metric_labels: clone_labels(&s.labels),
                    value: s.value.clone(),
                };
                proof {
                    assert(gv[i as int].samples[k as int] == g.samples@[k as int]@);
                    assert(rec@ == grecs[k as int]);
                }
                let ghost prev = out@;
                out.push(rec);
                proof {
                    assert(records_view(out@) =~= records_view(prev).push(grecs[k as int]));
                    assert(records_view(prev).push(grecs[k as int]) =~= out0 + grecs.take(k + 1));
                }
                k = k + 1;
            }
            proof {
                assert(grecs.take(g.samples@.len() as int) =~= grecs);
            }
        } else {
            proof {
                assert(grecs =~= Seq::<RecordView>::empty());
                assert(records_view(out@) =~= out0 + grecs);
            }
        }
        i = i + 1;
    }
    out
}

/// The outcome of one successful cycle: the capture lines to append, in
/// order, and the indexes of targets that answered with a body holding no
/// metric group at all (an anomaly worth a log line, not a failure).
pub struct CycleOutcome {
    pub lines: Vec<String>,
    pub empty_targets: Vec<usize>,
}

pub open spec fn bodies_views(bs: Seq<Option<String>>) -> Seq<Option<Seq<char>>> {
    bs.map_values(
        |b: Option<String>|
            match b {
                Option::None => Option::<Seq<char>>::None,
                Option::Some(s) => Option::Some(s@),
            },
    )
}

/// Every body that arrived parses.
pub open spec fn spec_cycle_ok(bs: Seq<Option<Seq<char>>>) -> bool {
    forall|i: int|
        0 <= i < bs.len() ==> ((#[trigger] bs[i]) is Some ==> spec_parse_text(bs[i]->Some_0)
            is Some)
}

/// The records of one target in a cycle: nothing when its scrape failed,
/// otherwise the records of its parsed groups.
pub open spec fn spec_target_records(
    run_id: Seq<char>,
    experiment: Seq<char>,
    variant: Variant,
    target_id: Seq<char>,
    now: u128,
    idx: u64,
    b: Option<Seq<char>>,
) -> Seq<RecordView> {
    match b {
        None => Seq::empty(),
        Some(text) => match spec_parse_text(text) {
            None => Seq::empty(),
            Some(gs) => spec_groups_records(run_id, experiment, variant, target_id, now, idx, gs, 0),
        },
    }
}

pub open spec fn spec_target_lines(
    run_id: Seq<char>,
    experiment: Seq<char>,
    variant: Variant,
    target_id: Seq<char>,
    now: u128,
    idx: u64,
    b: Option<Seq<char>>,
) -> Seq<Seq<char>> {
    spec_target_records(run_id, experiment, variant, target_id, now, idx, b).map_values(
        |rv: RecordView| spec_record_line(rv),
    )
}

/// The capture lines of a whole cycle from target `j` on: each target's
/// lines in configured target order.
pub open spec fn spec_cycle_lines(
    run_id: Seq<char>,
    experiment: Seq<char>,
    variant: Variant,
    targets: Seq<crate::config::TargetView>,
    now: u128,
    idx: u64,
    bs: Seq<Option<Seq<char>>>,
    j: int,
) -> Seq<Seq<char>>
    decreases targets.len() - j,
    when 0 <= j
{
    if j >= targets.len() {
        Seq::empty()
    } else {
        spec_target_lines(run_id, experiment, variant, targets[j].id, now, idx, bs[j])
            + spec_cycle_lines(run_id, experiment, variant, targets, now, idx, bs, j + 1)
    }
}

/// The records of a whole cycle from target `j` on; the lines of the cycle
/// are exactly these records rendered, target by target.
pub open spec fn spec_cycle_records(
    run_id: Seq<char>,
    experiment: Seq<char>,
    variant: Variant,
    targets: Seq<crate::config::TargetView>,
    now: u128,
    idx: u64,
    bs: Seq<Option<Seq<char>>>,
    j: int,
) -> Seq<RecordView>
    decreases targets.len() - j,
    when 0 <= j
{
    if j >= targets.len() {
        Seq::empty()
    } else {
        spec_target_records(run_id, experiment, variant, targets[j].id, now, idx, bs[j])
            + spec_cycle_records(run_id, experiment, variant, targets, now, idx, bs, j + 1)
    }
}

pub open spec fn strings_view(ss: Seq<String>) -> Seq<Seq<char>> {
    ss.map_values(|s: String| s@)
}

/// The targets whose body arrived and parsed to no group at all, in order.
pub open spec fn spec_empty_targets(bs: Seq<Option<Seq<char>>>, j: int) -> Seq<usize>
    decreases bs.len() - j,
    when 0 <= j
{
    if j >= bs.len() {
        Seq::empty()
    } else {
        let head: Seq<usize> = if bs[j] is Some && spec_parse_text(bs[j]->Some_0) == Some(
            Seq::<GroupView>::empty(),
        ) {
            seq![j as usize]
        } else {
            Seq::<usize>::empty()
        };
        head + spec_empty_targets(bs, j + 1)
    }
}

impl Worker {
    /// Runs one cycle over the scraped bodies, one entry per target in
    /// configured order (`None` where the scrape failed). On success the
    /// cycle counter advances by exactly one and the lines of every target
    /// that answered are produced; a body that does not parse fails the run,
    /// naming the first such target, and leaves the run state unchanged.
    #[verifier::rlimit(80)]
    pub fn run_cycle(&self, run: &mut Run, now: u128, bodies: &Vec<Option<String>>) -> (r: Result<
        CycleOutcome,
        Error,
    >)
        requires
            bodies@.len() == self.targets@.len(),
            old(run).next_index < u64::MAX,
        ensures
            final(run).run_id == old(run).run_id,
            r is Ok <==> spec_cycle_ok(bodies_views(bodies@)),
            r is Ok ==> final(run).next_index == old(run).next_index + 1,
            r is Err ==> *final(run) == *old(run),
            r matches Ok(out) ==> strings_view(out.lines@) == spec_cycle_lines(
                old(run).run_id@,
                self.experiment_name@,
                self.variant,
                targets_views(self.targets@),
                now,
                old(run).next_index,
                bodies_views(bodies@),
                0,
            ) && out.empty_targets@ == spec_empty_targets(bodies_views(bodies@), 0),
            r matches Err(e) ==> (e matches Error::Parse { target_index } && 0 <= target_index
                < bodies@.len() && bodies_views(bodies@)[target_index as int] is Some
                && spec_parse_text(bodies_views(bodies@)[target_index as int]->Some_0) is None && (
            forall|j: int|
                0 <= j < target_index ==> ((#[trigger] bodies_views(bodies@)[j]) is Some
                    ==> spec_parse_text(bodies_views(bodies@)[j]->Some_0) is Some))),
    {
        let ghost bvs = bodies_views(bodies@);
        let ghost tvs = targets_views(self.targets@);
        let ghost run_id0 = run.run_id@;
        let ghost idx0 = run.next_index;
        let mut lines: Vec<String> = Vec::new();
        let mut empties: Vec<usize> = Vec::new();
        let mut j: usize = 0;
        proof {
            assert(strings_view(lines@) + spec_cycle_lines(
                run_id0,
                self.experiment_name@,
                self.variant,
                tvs,
                now,
                idx0,
                bvs,
                0,
            ) =~= spec_cycle_lines(
                run_id0,
                self.experiment_name@,
                self.variant,
                tvs,
                now,
                idx0,
                bvs,
                0,
            ));
            assert(empties@ + spec_empty_targets(bvs, 0) =~= spec_empty_targets(bvs, 0));
        }
        while j < self.targets.len()
            invariant
                j <= self.targets@.len(),
                bodies@.len() == self.targets@.len(),
                bvs == bodies_views(bodies@),
                tvs == targets_views(self.targets@),
                run.run_id@ == run_id0,
                run.next_index == idx0,
                *run == *old(run),
                strings_view(lines@) + spec_cycle_lines(
                    run_id0,
                    self.experiment_name@,
                    self.variant,
                    tvs,
                    now,
                    idx0,
                    bvs,
                    j as int,
                ) == spec_cycle_lines(
                    run_id0,
                    self.experiment_name@,
                    self.variant,
                    tvs,
                    now,
                    idx0,
                    bvs,
                    0,
                ),
                empties@ + spec_empty_targets(bvs, j as int) == spec_empty_targets(bvs, 0),
                forall|i: int|
                    0 <= i < j ==> ((#[trigger] bvs[i]) is Some ==> spec_parse_text(bvs[i]->Some_0)
                        is Some),
            decreases self.targets@.len() - j,
        {
            let ghost lines0 = strings_view(lines@);
            let ghost tlines = spec_target_lines(
                run_id0,
                self.experiment_name@,
                self.variant,
                tvs[j as int].id,
                now,
                idx0,
                bvs[j as int],
            );
            match &bodies[j] {
                None => {
                    proof {
                        assert(tlines =~= Seq::<Seq<char>>::empty());
                        assert(strings_view(lines@) + spec_cycle_lines(
                            run_id0,
                            self.experiment_name@,
                            self.variant,
                            tvs,
                            now,
                            idx0,
                            bvs,
                            j + 1,
                        ) =~= lines0 + (tlines + spec_cycle_lines(
                            run_id0,
                            self.experiment_name@,
                            self.variant,
                            tvs,
                            now,
                            idx0,
                            bvs,
                            j + 1,
                        )));
                        assert(empties@ + spec_empty_targets(bvs, j + 1) =~= empties@ + (Seq::<
                            usize,
                        >::empty() + spec_empty_targets(bvs, j + 1)));
                    }
                },
                Some(body) => {
                    match parse_metric_text(body.as_str()) {
                        None => {
                            proof {
                                assert(bvs[j as int] == Some(body@));
                            }
                            return Err(Error::Parse { target_index: j });
                        },
                        Some(groups) => {
                            proof {
                                assert(bvs[j as int] == Some(body@));
                                assert(spec_parse_text(body@) == Some(groups_view(groups@)));
                            }
                            if groups.len() == 0 {
                                let ghost empties0 = empties@;
                                empties.push(j);
                                proof {
                                    assert(groups_view(groups@) =~= Seq::<GroupView>::empty());
                                    assert(empties@ =~= empties0 + seq![j as usize]);
                                    assert(empties@ + spec_empty_targets(bvs, j + 1) =~= empties0
                                        + (seq![j as usize] + spec_empty_targets(bvs, j + 1)));
                                }
                            } else {
                                proof {
                                    assert(!(groups_view(groups@) =~= Seq::<GroupView>::empty()));
                                    assert(empties@ + spec_empty_targets(bvs, j + 1) =~= empties@
                                        + (Seq::<usize>::empty() + spec_empty_targets(
                                        bvs,
                                        j + 1,
                                    )));
                                }
                            }
                            let recs = records_for_groups(
                                &run.run_id,
                                &self.experiment_name,
                                self.variant,
                                &self.targets[j].0.id,
                                now,
                                run.next_index,
                                &groups,
                            );
                            proof {
                                assert(tvs[j as int].id == self.targets@[j as int].0@.id);
                                assert(tlines =~= records_view(recs@).map_values(
                                    |rv: RecordView| spec_record_line(rv),
                                ));
                            }
                            let mut k: usize = 0;
                            while k < recs.len()
                                invariant
                                    k <= recs@.len(),
                                    tlines.len() == recs@.len(),
                                    forall|x: int|
                                        0 <= x < recs@.len() ==> #[trigger] tlines[x]
                                            == spec_record_line(recs@[x]@),
                                    strings_view(lines@) == lines0 + tlines.take(k as int),
                                decreases recs@.len() - k,
                            {
                                let line = render_record(&recs[k]);
                                let ghost prevl = lines@;
                                lines.push(line);
                                proof {
                                    assert(strings_view(lines@) =~= strings_view(prevl).push(
                                        tlines[k as int],
                                    ));
                                    assert(strings_view(prevl).push(tlines[k as int]) =~= lines0
                                        + tlines.take(k + 1));
                                }
                                k = k + 1;
                            }
                            proof {
                                assert(tlines.take(recs@.len() as int) =~= tlines);
                                assert(strings_view(lines@) + spec_cycle_lines(
                                    run_id0,
                                    self.experiment_name@,
                                    self.variant,
                                    tvs,
                                    now,
                                    idx0,
                                    bvs,
                                    j + 1,
                                ) =~= lines0 + (tlines + spec_cycle_lines(
                                    run_id0,
                                    self.experiment_name@,
                                    self.variant,
                                    tvs,
                                    now,
                                    idx0,
                                    bvs,
                                    j + 1,
                                )));
                            }
                        },
                    }
                },
            }
            j = j + 1;
        }
        proof {
            assert(spec_cycle_lines(
                run_id0,
                self.experiment_name@,
                self.variant,
                tvs,
                now,
                idx0,
                bvs,
                j as int,
            ) =~= Seq::<Seq<char>>::empty());
            assert(strings_view(lines@) =~= strings_view(lines@) + Seq::<Seq<char>>::empty());
            assert(spec_empty_targets(bvs, j as int) =~= Seq::<usize>::empty());
            assert(empties@ =~= empties@ + Seq::<usize>::empty());
        }
        run.next_index = run.next_index + 1;
        Ok(CycleOutcome { lines, empty_targets: empties })
    }
}

} // verus!
