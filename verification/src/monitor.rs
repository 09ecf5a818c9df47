use vstd::prelude::*;

use crate::metric::CpuPoll;
use crate::metric::LoadAvgReading;
use crate::metric::Metric;
use crate::metric::Readings;
use crate::metric::UpdateError;
use crate::metric::load_metrics;
use crate::metric::sat_sub;
use crate::metric::snapshot_of;

verus! {

/// Lifecycle of the background CPU measurement: either none is in flight,
/// or exactly one is.
#[derive(Copy, Clone, Debug, PartialEq, Eq, Structural)]
pub enum TaskState {
    /// No measurement in flight; the next refresh starts one.
    Idle,
    /// A measurement is in flight; each refresh polls it without blocking.
    Measuring,
}

/// The mathematical state of a [`SysMonitor`]: the snapshot it would hand
/// out, the lifecycle state of the background measurement, and the last
/// completed CPU utilization value (f32 bits; the placeholder zero until a
/// first measurement completes).
pub ghost struct MonitorModel {
    pub snapshot: Seq<Metric>,
    pub task: TaskState,
    pub last_cpu: u32,
}

/// What one refresh step does: the state it leaves behind and what the
/// call returns (`Ok(true)` exactly when a new measurement must be started).
pub ghost struct StepOutcome {
    pub post: MonitorModel,
    pub result: Result<bool, UpdateError>,
}

/// The refresh transition, in full. Given the state before the call, the
/// tick's readings and what the caller observed of the background
/// measurement, it determines the state after the call and the call's
/// result:
///
/// - a missing memory or uptime reading fails the refresh and changes
///   nothing;
/// - a measurement that failed to complete is discarded (back to `Idle`)
///   and reported, leaving the snapshot intact;
/// - otherwise the refresh succeeds: a completed measurement's value is
///   folded in (back to `Idle`), a still-running one leaves the last known
///   value in place, and from `Idle` a new measurement is started
///   (`Ok(true)`); the snapshot is rebuilt from the readings around the
///   CPU value so determined.
pub open spec fn spec_step(m: MonitorModel, r: Readings, poll: CpuPoll) -> StepOutcome {
    if r.memory is None || r.uptime is None {
        StepOutcome { post: m, result: Err(UpdateError::SourceUnavailable) }
    } else if m.task is Measuring && poll is Failed {
        StepOutcome {
            post: MonitorModel { snapshot: m.snapshot, task: TaskState::Idle, last_cpu: m.last_cpu },
            result: Err(UpdateError::TaskJoinFailure),
        }
    } else {
        let task = if m.task is Idle {
            TaskState::Measuring
        } else if poll is Done {
            TaskState::Idle
        } else {
            TaskState::Measuring
        };
        let cpu = if m.task is Measuring {
            match poll {
                CpuPoll::Done(v) => v,
                _ => m.last_cpu,
            }
        } else {
            m.last_cpu
        };
        let started = m.task is Idle;
        StepOutcome {
            post: MonitorModel { snapshot: snapshot_of(r, cpu), task, last_cpu: cpu },
            result: Ok(started),
        }
    }
}

/// The sampler core. It owns the authoritative snapshot buffer and the
/// lifecycle of the background CPU measurement; the caller performs the
/// measurement itself (it needs a separate execution unit and a mandatory
/// settle wait) and reports back through [`CpuPoll`].
pub struct SysMonitor {
    snapshot: Vec<Metric>,
    task: TaskState,
    last_cpu: u32,
}

impl View for SysMonitor {
    type V = MonitorModel;

    closed spec fn view(&self) -> MonitorModel {
        MonitorModel { snapshot: self.snapshot@, task: self.task, last_cpu: self.last_cpu }
    }
}

impl SysMonitor {
    /// A fresh core: empty snapshot, no measurement in flight, and the
    /// placeholder utilization value of zero (the bits of 0.0) until a
    /// first measurement completes.
    pub fn new() -> (m: Self)
        ensures
            m@ == (MonitorModel { snapshot: Seq::<Metric>::empty(), task: TaskState::Idle, last_cpu: 0u32 }),
    {
        Self { snapshot: Vec::new(), task: TaskState::Idle, last_cpu: 0 }
    }

    /// The most recent complete snapshot, as a defensive copy; never
    /// blocks on the background measurement.
    pub fn metrics(&self) -> (r: Vec<Metric>)
        ensures
            r@ == self@.snapshot,
    {
        let mut mv: Vec<Metric> = Vec::new();
        let mut i: usize = 0;
        while i < self.snapshot.len()
            invariant
                i <= self.snapshot.len(),
                mv@ == self.snapshot@.subrange(0, i as int),
            decreases self.snapshot.len() - i,
        {
            mv.push(self.snapshot[i]);
            assert(mv@ =~= self.snapshot@.subrange(0, i as int + 1));
            i = i + 1;
        }
        assert(mv@ =~= self.snapshot@);
        mv
    }

    /// One refresh tick. `readings` is what the metrics source supplied
    /// for this tick; `poll` is what the caller observed of the background
    /// measurement since the previous call. Returns `Ok(true)` exactly
    /// when the caller must start a new measurement, `Ok(false)` on any
    /// other successful refresh, and an error when a required reading is
    /// missing (nothing changes) or the measurement failed to complete
    /// (it is discarded, the snapshot is left intact).
    pub fn update(&mut self, readings: &Readings, poll: CpuPoll) -> (r: Result<bool, UpdateError>)
        ensures
            ({
                let step = spec_step(old(self)@, *readings, poll);
                final(self)@ == step.post && r == step.result
            }),
    {
        let (mem_total, mem_free) = match readings.memory {
            Some(m) => (m.total, m.free),
            None => {
                return Err(UpdateError::SourceUnavailable);
            },
        };
        let uptime = match readings.uptime {
            Some(u) => u,
            None => {
                return Err(UpdateError::SourceUnavailable);
            },
        };

        let mut started = false;
        let task = self.task;
        match task {
            TaskState::Measuring => {
                match poll {
                    CpuPoll::Failed => {
                        self.task = TaskState::Idle;
                        return Err(UpdateError::TaskJoinFailure);
                    },
                    CpuPoll::Done(v) => {
                        self.task = TaskState::Idle;
                        self.last_cpu = v;
                    },
                    CpuPoll::Pending => {},
                }
            },
            TaskState::Idle => {
                self.task = TaskState::Measuring;
                started = true;
            },
        }

        let mut snap: Vec<Metric> = Vec::new();
        loadaverage(&mut snap, readings.load_average);
        snap.push(Metric::CpuAverage(self.last_cpu));
        if let Some(t) = readings.cpu_temp {
            snap.push(Metric::CpuTemp(t));
        }
        snap.push(Metric::MemTotal(mem_total));
        snap.push(Metric::MemUsed(mem_used(mem_total, mem_free)));
        snap.push(Metric::Uptime(uptime));

        assert(snap@ =~= snapshot_of(*readings, self.last_cpu));
        self.snapshot = snap;
        Ok(started)
    }
}

/// Appends the load-average metrics of one reading: all three when the
/// source supports load averages, none when it reports them unsupported.
pub fn loadaverage(metrics: &mut Vec<Metric>, load: Option<LoadAvgReading>)
    ensures
        final(metrics)@ == old(metrics)@ + load_metrics(load),
{
    match load {
        Some(l) => {
            metrics.push(Metric::LoadAverage1(l.one));
            metrics.push(Metric::LoadAverage5(l.five));
            metrics.push(Metric::LoadAverage15(l.fifteen));
            assert(metrics@ =~= old(metrics)@ + load_metrics(load));
        },
        None => {
            assert(metrics@ =~= old(metrics)@ + load_metrics(load));
        },
    }
}

/// Relies on `get_sys_info::saturating_sub_bytes`: its source subtracts the
/// two byte counts with `u64::saturating_sub`, so the result is the
/// difference clamped at zero.
#[verifier::external_body]
fn mem_used(total: u64, free: u64) -> (r: u64)
    ensures
        r == sat_sub(total, free),
{
    get_sys_info::saturating_sub_bytes(
        get_sys_info::data::readable_byte::b(total),
        get_sys_info::data::readable_byte::b(free),
    )
        .as_u64()
}

} // verus!
