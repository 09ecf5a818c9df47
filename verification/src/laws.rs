use vstd::prelude::*;

use crate::metric::CpuPoll;
use crate::metric::Metric;
use crate::metric::Readings;
use crate::metric::UpdateError;
use crate::metric::snapshot_of;
use crate::monitor::MonitorModel;
use crate::monitor::TaskState;
use crate::monitor::spec_step;

verus! {

/// How many background CPU measurements a core in state `m` has in flight.
pub open spec fn in_flight(m: MonitorModel) -> nat {
    if m.task is Measuring {
        1nat
    } else {
        0nat
    }
}

/// One tick's worth of input to a refresh: the readings the metrics source
/// supplied and what the caller observed of the background measurement.
pub ghost struct TickInput {
    pub readings: Readings,
    pub poll: CpuPoll,
}

/// The state a core reaches after refreshing once per tick, in order.
pub open spec fn run(m: MonitorModel, ticks: Seq<TickInput>) -> MonitorModel
    decreases ticks.len(),
{
    if ticks.len() == 0 {
        m
    } else {
        run(spec_step(m, ticks[0].readings, ticks[0].poll).post, ticks.drop_first())
    }
}

/// The snapshot's CPU utilization entry is exactly `c`: some entry carries
/// `c`, and every CPU utilization entry carries `c`.
pub open spec fn shows_cpu(s: Seq<Metric>, c: u32) -> bool {
    &&& exists|i: int| 0 <= i < s.len() && s[i] == Metric::CpuAverage(c)
    &&& forall|i: int| 0 <= i < s.len() && #[trigger] s[i] is CpuAverage ==> s[i]
        == Metric::CpuAverage(c)
}

/// Whether `a` and `b` are instances of the same metric kind.
pub open spec fn same_kind(a: Metric, b: Metric) -> bool {
    ||| a is CpuAverage && b is CpuAverage
    ||| a is CpuTemp && b is CpuTemp
    ||| a is MemTotal && b is MemTotal
    ||| a is MemUsed && b is MemUsed
    ||| a is Uptime && b is Uptime
    ||| a is LoadAverage1 && b is LoadAverage1
    ||| a is LoadAverage5 && b is LoadAverage5
    ||| a is LoadAverage15 && b is LoadAverage15
}

/// Whether `m` is one of the load-average metrics.
pub open spec fn is_load_metric(m: Metric) -> bool {
    m is LoadAverage1 || m is LoadAverage5 || m is LoadAverage15
}

/// Law: however a refresh step goes, at most one background measurement is
/// in flight afterwards; a step reports that it started a measurement
/// (`Ok(true)`) only when none was in flight before, and never while one
/// is still in flight; and whenever it does, one is in flight afterwards.
pub proof fn lemma_at_most_one_measurement(m: MonitorModel, r: Readings, poll: CpuPoll)
    ensures
        ({
            let step = spec_step(m, r, poll);
            &&& in_flight(step.post) <= 1
            &&& step.result == Ok::<bool, UpdateError>(true) ==> m.task is Idle
            &&& m.task is Measuring ==> step.result != Ok::<bool, UpdateError>(true)
            &&& step.result == Ok::<bool, UpdateError>(true) ==> step.post.task is Measuring
        }),
{
}

/// Law: a refresh that fails leaves the snapshot untouched. One that fails
/// because a required reading (memory or uptime) is missing changes nothing
/// at all and reports the source as unavailable; one that fails because the
/// measurement did not complete cleanly discards only that measurement
/// cycle — the core returns to idle with the last completed value intact,
/// ready to start a fresh measurement.
pub proof fn lemma_failed_refresh_keeps_snapshot(m: MonitorModel, r: Readings, poll: CpuPoll)
    ensures
        ({
            let step = spec_step(m, r, poll);
            &&& step.result is Err ==> step.post.snapshot == m.snapshot
            &&& (r.memory is None || r.uptime is None) ==> step.post == m && step.result == Err::<
                bool,
                UpdateError,
            >(UpdateError::SourceUnavailable)
            &&& step.result == Err::<bool, UpdateError>(UpdateError::TaskJoinFailure)
                ==> step.post.task is Idle && step.post.last_cpu == m.last_cpu
        }),
{
}

/// The snapshot a successful refresh builds shows exactly the CPU value it
/// was built around.
pub proof fn lemma_snapshot_shows_cpu(r: Readings, c: u32)
    requires
        r.memory is Some,
        r.uptime is Some,
    ensures
        shows_cpu(snapshot_of(r, c), c),
{
    let s = snapshot_of(r, c);
    let n = crate::metric::load_metrics(r.load_average).len();
    assert(s[n as int] == Metric::CpuAverage(c));
}

/// Law: a completed measurement is visible at once. When a refresh finds
/// the in-flight measurement finished with value `v`, it succeeds without
/// starting a new one, records `v` as the last completed value, returns to
/// idle, and the very next snapshot shows `v`.
pub proof fn lemma_completed_measurement_visible(
    m: MonitorModel,
    r: Readings,
    poll: CpuPoll,
    v: u32,
)
    requires
        m.task is Measuring,
        poll == CpuPoll::Done(v),
        r.memory is Some,
        r.uptime is Some,
    ensures
        ({
            let step = spec_step(m, r, poll);
            &&& step.result == Ok::<bool, UpdateError>(false)
            &&& step.post.task is Idle
            &&& step.post.last_cpu == v
            &&& step.post.snapshot == snapshot_of(r, v)
            &&& shows_cpu(step.post.snapshot, v)
        }),
{
    lemma_snapshot_shows_cpu(r, v);
}

/// Law: every successful refresh leaves a snapshot that shows the last
/// completed CPU value — a still-running measurement never resets it.
pub proof fn lemma_refresh_shows_last_cpu(m: MonitorModel, r: Readings, poll: CpuPoll)
    ensures
        ({
            let step = spec_step(m, r, poll);
            step.result is Ok ==> step.post.snapshot == snapshot_of(r, step.post.last_cpu)
                && shows_cpu(step.post.snapshot, step.post.last_cpu)
        }),
{
    let step = spec_step(m, r, poll);
    if step.result is Ok {
        lemma_snapshot_shows_cpu(r, step.post.last_cpu);
    }
}

/// Law: the last completed CPU value never reverts or changes out of
/// order. Over any run of refreshes in which no tick reports a completed
/// measurement, the last completed value stays what it was.
pub proof fn lemma_cpu_value_persists(m: MonitorModel, ticks: Seq<TickInput>)
    requires
        forall|i: int| 0 <= i < ticks.len() ==> !((#[trigger] ticks[i]).poll is Done),
    ensures
        run(m, ticks).last_cpu == m.last_cpu,
    decreases ticks.len(),
{
    if ticks.len() > 0 {
        let next = spec_step(m, ticks[0].readings, ticks[0].poll).post;
        assert(next.last_cpu == m.last_cpu);
        let rest = ticks.drop_first();
        assert forall|i: int| 0 <= i < rest.len() implies !((#[trigger] rest[i]).poll
            is Done) by {
            assert(rest[i] == ticks[i + 1]);
        }
        lemma_cpu_value_persists(next, rest);
    }
}

/// Law: a refresh never produces two metrics of the same kind — each kind
/// appears at most once in the snapshot.
pub proof fn lemma_snapshot_one_per_kind(r: Readings, c: u32)
    requires
        r.memory is Some,
        r.uptime is Some,
    ensures
        ({
            let s = snapshot_of(r, c);
            forall|i: int, j: int|
                0 <= i < s.len() && 0 <= j < s.len() && same_kind(#[trigger] s[i], #[trigger] s[j])
                    ==> i == j
        }),
{
    let s = snapshot_of(r, c);
    let mem = r.memory->0;
    let up = r.uptime->0;
    match (r.load_average, r.cpu_temp) {
        (Some(l), Some(t)) => {
            assert(s =~= seq![
                Metric::LoadAverage1(l.one),
                Metric::LoadAverage5(l.five),
                Metric::LoadAverage15(l.fifteen),
                Metric::CpuAverage(c),
                Metric::CpuTemp(t),
                Metric::MemTotal(mem.total),
                Metric::MemUsed(crate::metric::sat_sub(mem.total, mem.free)),
                Metric::Uptime(up),
            ]);
        },
        (Some(l), None) => {
            assert(s =~= seq![
                Metric::LoadAverage1(l.one),
                Metric::LoadAverage5(l.five),
                Metric::LoadAverage15(l.fifteen),
                Metric::CpuAverage(c),
                Metric::MemTotal(mem.total),
                Metric::MemUsed(crate::metric::sat_sub(mem.total, mem.free)),
                Metric::Uptime(up),
            ]);
        },
        (None, Some(t)) => {
            assert(s =~= seq![
                Metric::CpuAverage(c),
                Metric::CpuTemp(t),
                Metric::MemTotal(mem.total),
                Metric::MemUsed(crate::metric::sat_sub(mem.total, mem.free)),
                Metric::Uptime(up),
            ]);
        },
        (None, None) => {
            assert(s =~= seq![
                Metric::CpuAverage(c),
                Metric::MemTotal(mem.total),
                Metric::MemUsed(crate::metric::sat_sub(mem.total, mem.free)),
                Metric::Uptime(up),
            ]);
        },
    }
}

/// Law: when the metrics source reports load averages unsupported, the
/// refresh still succeeds (unless the measurement itself failed) and the
/// snapshot contains no load-average metric at all.
pub proof fn lemma_load_average_omitted(m: MonitorModel, r: Readings, poll: CpuPoll)
    requires
        r.load_average is None,
        r.memory is Some,
        r.uptime is Some,
        !(m.task is Measuring && poll is Failed),
    ensures
        ({
            let step = spec_step(m, r, poll);
            &&& step.result is Ok
            &&& forall|i: int|
                0 <= i < step.post.snapshot.len() ==> !is_load_metric(
                    #[trigger] step.post.snapshot[i],
                )
        }),
{
    let step = spec_step(m, r, poll);
    let s = step.post.snapshot;
    let c = step.post.last_cpu;
    let mem = r.memory->0;
    let up = r.uptime->0;
    match r.cpu_temp {
        Some(t) => {
            assert(s =~= seq![
                Metric::CpuAverage(c),
                Metric::CpuTemp(t),
                Metric::MemTotal(mem.total),
                Metric::MemUsed(crate::metric::sat_sub(mem.total, mem.free)),
                Metric::Uptime(up),
            ]);
        },
        None => {
            assert(s =~= seq![
                Metric::CpuAverage(c),
                Metric::MemTotal(mem.total),
                Metric::MemUsed(crate::metric::sat_sub(mem.total, mem.free)),
                Metric::Uptime(up),
            ]);
        },
    }
}

/// Law: when the CPU temperature read fails, the refresh still succeeds
/// (unless the measurement itself failed) and the snapshot contains no
/// temperature metric.
pub proof fn lemma_cpu_temp_omitted(m: MonitorModel, r: Readings, poll: CpuPoll)
    requires
        r.cpu_temp is None,
        r.memory is Some,
        r.uptime is Some,
        !(m.task is Measuring && poll is Failed),
    ensures
        ({
            let step = spec_step(m, r, poll);
            &&& step.result is Ok
            &&& forall|i: int|
                0 <= i < step.post.snapshot.len() ==> !(#[trigger] step.post.snapshot[i]
                    is CpuTemp)
        }),
{
    let step = spec_step(m, r, poll);
    let s = step.post.snapshot;
    let c = step.post.last_cpu;
    let mem = r.memory->0;
    let up = r.uptime->0;
    match r.load_average {
        Some(l) => {
            assert(s =~= seq![
                Metric::LoadAverage1(l.one),
                Metric::LoadAverage5(l.five),
                Metric::LoadAverage15(l.fifteen),
                Metric::CpuAverage(c),
                Metric::MemTotal(mem.total),
                Metric::MemUsed(crate::metric::sat_sub(mem.total, mem.free)),
                Metric::Uptime(up),
            ]);
        },
        None => {
            assert(s =~= seq![
                Metric::CpuAverage(c),
                Metric::MemTotal(mem.total),
                Metric::MemUsed(crate::metric::sat_sub(mem.total, mem.free)),
                Metric::Uptime(up),
            ]);
        },
    }
}

} // verus!
