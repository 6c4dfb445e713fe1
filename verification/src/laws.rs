//! The collector's cross-cutting guarantees, stated and proved over the same
//! spec functions that the executable functions' contracts use.

use vstd::prelude::*;

use crate::config::{TargetView, Variant};
use crate::metrics::{GroupView, MetricKind};
use crate::parse::spec_parse_text;
use crate::run::{
    spec_cycle_lines, spec_cycle_ok, spec_cycle_records, spec_group_records, spec_groups_records,
    spec_sample_record, spec_target_lines, spec_target_records,
};

verus! {

/// Every record produced by the groups of one body carries the cycle index
/// it was built with.
pub proof fn lemma_groups_records_share_index(
    run_id: Seq<char>,
    experiment: Seq<char>,
    variant: Variant,
    target_id: Seq<char>,
    now: u128,
    idx: u64,
    gs: Seq<GroupView>,
    i: int,
)
    requires
        0 <= i,
    ensures
        forall|k: int|
            0 <= k < spec_groups_records(run_id, experiment, variant, target_id, now, idx, gs, i).len()
                ==> (#[trigger] spec_groups_records(
                run_id,
                experiment,
                variant,
                target_id,
                now,
                idx,
                gs,
                i,
            )[k]).fetch_index == idx,
    decreases gs.len() - i,
{
    if i < gs.len() {
        lemma_groups_records_share_index(run_id, experiment, variant, target_id, now, idx, gs, i + 1);
    }
}

/// Every record produced by one target in one cycle carries that cycle's
/// index: within a cycle, `fetch_index` is one and the same value. That the
/// index then grows by exactly one per successful cycle is the counter
/// clause of `Worker::run_cycle`.
pub proof fn lemma_cycle_records_share_index(
    run_id: Seq<char>,
    experiment: Seq<char>,
    variant: Variant,
    targets: Seq<TargetView>,
    now: u128,
    idx: u64,
    bs: Seq<Option<Seq<char>>>,
    j: int,
)
    requires
        0 <= j,
    ensures
        forall|k: int|
            0 <= k < spec_cycle_records(run_id, experiment, variant, targets, now, idx, bs, j).len()
                ==> (#[trigger] spec_cycle_records(
                run_id,
                experiment,
                variant,
                targets,
                now,
                idx,
                bs,
                j,
            )[k]).fetch_index == idx,
    decreases targets.len() - j,
{
    if j < targets.len() {
        lemma_cycle_records_share_index(run_id, experiment, variant, targets, now, idx, bs, j + 1);
        match bs[j] {
            None => {},
            Some(text) => match spec_parse_text(text) {
                None => {},
                Some(gs) => {
                    lemma_groups_records_share_index(
                        run_id,
                        experiment,
                        variant,
                        targets[j].id,
                        now,
                        idx,
                        gs,
                        0,
                    );
                },
            },
        }
    }
}

pub proof fn lemma_groups_records_share_run_id(
    run_id: Seq<char>,
    experiment: Seq<char>,
    variant: Variant,
    target_id: Seq<char>,
    now: u128,
    idx: u64,
    gs: Seq<GroupView>,
    i: int,
)
    requires
        0 <= i,
    ensures
        forall|k: int|
            0 <= k < spec_groups_records(run_id, experiment, variant, target_id, now, idx, gs, i).len()
                ==> (#[trigger] spec_groups_records(
                run_id,
                experiment,
                variant,
                target_id,
                now,
                idx,
                gs,
                i,
            )[k]).run_id == run_id,
    decreases gs.len() - i,
{
    if i < gs.len() {
        lemma_groups_records_share_run_id(run_id, experiment, variant, target_id, now, idx, gs, i + 1);
    }
}

/// Every record of a cycle carries the run identity it was built with: since
/// `Run::start` draws the identity once and `Worker::run_cycle` never changes
/// it, all records of one run share one `run_id`.
pub proof fn lemma_cycle_records_share_run_id(
    run_id: Seq<char>,
    experiment: Seq<char>,
    variant: Variant,
    targets: Seq<TargetView>,
    now: u128,
    idx: u64,
    bs: Seq<Option<Seq<char>>>,
    j: int,
)
    requires
        0 <= j,
    ensures
        forall|k: int|
            0 <= k < spec_cycle_records(run_id, experiment, variant, targets, now, idx, bs, j).len()
                ==> (#[trigger] spec_cycle_records(
                run_id,
                experiment,
                variant,
                targets,
                now,
                idx,
                bs,
                j,
            )[k]).run_id == run_id,
    decreases targets.len() - j,
{
    if j < targets.len() {
        lemma_cycle_records_share_run_id(run_id, experiment, variant, targets, now, idx, bs, j + 1);
        match bs[j] {
            None => {},
            Some(text) => match spec_parse_text(text) {
                None => {},
                Some(gs) => {
                    lemma_groups_records_share_run_id(
                        run_id,
                        experiment,
                        variant,
                        targets[j].id,
                        now,
                        idx,
                        gs,
                        0,
                    );
                },
            },
        }
    }
}

/// The records of a Counter or Gauge group correspond one to one, in order,
/// to its samples.
pub proof fn lemma_group_records_per_sample(
    run_id: Seq<char>,
    experiment: Seq<char>,
    variant: Variant,
    target_id: Seq<char>,
    now: u128,
    idx: u64,
    g: GroupView,
)
    requires
        g.kind == MetricKind::Counter || g.kind == MetricKind::Gauge,
    ensures
        spec_group_records(run_id, experiment, variant, target_id, now, idx, g).len()
            == g.samples.len(),
        forall|k: int|
            0 <= k < g.samples.len() ==> spec_group_records(
                run_id,
                experiment,
                variant,
                target_id,
                now,
                idx,
                g,
            )[k] == spec_sample_record(
                run_id,
                experiment,
                variant,
                target_id,
                now,
                idx,
                g.name,
                g.kind,
                #[trigger] g.samples[k],
            ),
{
}

/// A record's `time` is the sample's own timestamp when the sample carries
/// one, and the cycle's wall-clock capture otherwise.
pub proof fn lemma_record_time(
    run_id: Seq<char>,
    experiment: Seq<char>,
    variant: Variant,
    target_id: Seq<char>,
    now: u128,
    idx: u64,
    gname: Seq<char>,
    kind: MetricKind,
    s: crate::metrics::SampleView,
)
    ensures
        s.timestamp is Some ==> spec_sample_record(
            run_id,
            experiment,
            variant,
            target_id,
            now,
            idx,
            gname,
            kind,
            s,
        ).time == s.timestamp->Some_0 as u128,
        s.timestamp is None ==> spec_sample_record(
            run_id,
            experiment,
            variant,
            target_id,
            now,
            idx,
            gname,
            kind,
            s,
        ).time == now,
{
}

/// Groups of kind Summary, Histogram or Untyped never produce records.
pub proof fn lemma_other_kinds_silent(
    run_id: Seq<char>,
    experiment: Seq<char>,
    variant: Variant,
    target_id: Seq<char>,
    now: u128,
    idx: u64,
    g: GroupView,
)
    requires
        g.kind != MetricKind::Counter,
        g.kind != MetricKind::Gauge,
    ensures
        spec_group_records(run_id, experiment, variant, target_id, now, idx, g) == Seq::<
            crate::record::RecordView,
        >::empty(),
{
}

/// A transport failure on one target is isolated: blanking that target's
/// body leaves every other target's lines unchanged, and cannot make a cycle
/// that would have succeeded fail.
pub proof fn lemma_transport_failure_isolated(
    run_id: Seq<char>,
    experiment: Seq<char>,
    variant: Variant,
    targets: Seq<TargetView>,
    now: u128,
    idx: u64,
    bs: Seq<Option<Seq<char>>>,
    i: int,
)
    requires
        0 <= i < bs.len(),
        bs.len() == targets.len(),
    ensures
        forall|j: int|
            0 <= j < targets.len() && j != i ==> spec_target_lines(
                run_id,
                experiment,
                variant,
                targets[j].id,
                now,
                idx,
                #[trigger] bs.update(i, Option::<Seq<char>>::None)[j],
            ) == spec_target_lines(
                run_id,
                experiment,
                variant,
                targets[j].id,
                now,
                idx,
                bs[j],
            ),
        spec_cycle_ok(bs) ==> spec_cycle_ok(bs.update(i, Option::<Seq<char>>::None)),
{
    assert forall|j: int| 0 <= j < bs.len() && j != i implies bs.update(
        i,
        Option::<Seq<char>>::None,
    )[j] == bs[j] by {}
}

/// Replaying a cycle is deterministic: the same run identity, configuration,
/// cycle index, wall clock and response bodies give byte-identical capture
/// lines.
pub proof fn lemma_cycle_lines_deterministic(
    run_id1: Seq<char>,
    experiment1: Seq<char>,
    variant1: Variant,
    targets1: Seq<TargetView>,
    now1: u128,
    idx1: u64,
    bs1: Seq<Option<Seq<char>>>,
    run_id2: Seq<char>,
    experiment2: Seq<char>,
    variant2: Variant,
    targets2: Seq<TargetView>,
    now2: u128,
    idx2: u64,
    bs2: Seq<Option<Seq<char>>>,
)
    requires
        run_id1 == run_id2,
        experiment1 == experiment2,
        variant1 == variant2,
        targets1 == targets2,
        now1 == now2,
        idx1 == idx2,
        bs1 == bs2,
    ensures
        spec_cycle_lines(run_id1, experiment1, variant1, targets1, now1, idx1, bs1, 0)
            == spec_cycle_lines(run_id2, experiment2, variant2, targets2, now2, idx2, bs2, 0),
{
}

} // verus!
