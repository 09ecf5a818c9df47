use vstd::prelude::*;

verus! {

/// One sampled host-health metric.
///
/// Fractional readings (CPU utilization as a fraction, CPU temperature in
/// degrees, load averages) are carried as the raw bit pattern of the
/// single-precision value the metrics source produced (`f32::to_bits`);
/// the sampler core never interprets those bits, it only stores and hands
/// them on to the presentation layer, which converts them back with
/// `f32::from_bits`. Byte counts and the uptime are plain integers
/// (bytes, whole seconds).
#[derive(Copy, Clone, Debug, PartialEq, Eq, Structural)]
pub enum Metric {
    /// CPU utilization fraction from the last completed measurement (f32 bits).
    CpuAverage(u32),
    /// CPU temperature in degrees (f32 bits); omitted when unavailable.
    CpuTemp(u32),
    /// Total memory in bytes.
    MemTotal(u64),
    /// Used memory in bytes (total minus free, clamped at zero).
    MemUsed(u64),
    /// Uptime in whole seconds.
    Uptime(u64),
    /// One-minute load average (f32 bits); omitted when unsupported.
    LoadAverage1(u32),
    /// Five-minute load average (f32 bits); omitted when unsupported.
    LoadAverage5(u32),
    /// Fifteen-minute load average (f32 bits); omitted when unsupported.
    LoadAverage15(u32),
}

/// A point-in-time memory reading from the metrics source.
#[derive(Copy, Clone, Debug)]
pub struct MemoryReading {
    /// Total memory in bytes.
    pub total: u64,
    /// Free memory in bytes.
    pub free: u64,
}

/// A point-in-time load-average reading (each value is f32 bits).
#[derive(Copy, Clone, Debug)]
pub struct LoadAvgReading {
    pub one: u32,
    pub five: u32,
    pub fifteen: u32,
}

/// Everything the metrics source could read for one tick.
///
/// `None` means the source could not supply the reading: for `memory` and
/// `uptime` that is an error the core reports, for `load_average` and
/// `cpu_temp` the metric is silently omitted from the snapshot.
#[derive(Copy, Clone, Debug)]
pub struct Readings {
    pub memory: Option<MemoryReading>,
    /// Uptime in whole seconds.
    pub uptime: Option<u64>,
    pub load_average: Option<LoadAvgReading>,
    /// CPU temperature in degrees (f32 bits).
    pub cpu_temp: Option<u32>,
}

/// What the caller observed of the background CPU measurement since the
/// previous refresh. Consulted only while a measurement is in flight.
#[derive(Copy, Clone, Debug, PartialEq, Eq, Structural)]
pub enum CpuPoll {
    /// No completed measurement to report (still running, or none in flight).
    Pending,
    /// The measurement finished and computed this utilization fraction (f32 bits).
    Done(u32),
    /// The measurement's execution unit failed to complete cleanly.
    Failed,
}

/// Why a refresh failed.
#[derive(Copy, Clone, Debug, PartialEq, Eq, Structural)]
pub enum UpdateError {
    /// The metrics source could not supply memory or uptime, which are required.
    SourceUnavailable,
    /// The background measurement failed; its cycle is discarded.
    TaskJoinFailure,
}

/// Used memory: total minus free, clamped at zero so that an inconsistent
/// reading (free larger than total) never underflows.
pub open spec fn sat_sub(total: u64, free: u64) -> u64 {
    if total >= free {
        (total - free) as u64
    } else {
        0u64
    }
}

/// The load-average metrics a reading contributes: three entries when the
/// source supports load averages, none otherwise.
pub open spec fn load_metrics(load: Option<LoadAvgReading>) -> Seq<Metric> {
    match load {
        Some(l) => seq![
            Metric::LoadAverage1(l.one),
            Metric::LoadAverage5(l.five),
            Metric::LoadAverage15(l.fifteen),
        ],
        None => Seq::empty(),
    }
}

/// The temperature metrics a reading contributes: one entry when the read
/// succeeded, none otherwise.
pub open spec fn temp_metrics(temp: Option<u32>) -> Seq<Metric> {
    match temp {
        Some(t) => seq![Metric::CpuTemp(t)],
        None => Seq::empty(),
    }
}

/// The complete snapshot a successful refresh produces from the tick's
/// readings and the CPU utilization value to show (`cpu_bits`).
pub open spec fn snapshot_of(r: Readings, cpu_bits: u32) -> Seq<Metric>
    recommends
        r.memory is Some,
        r.uptime is Some,
{
    load_metrics(r.load_average) + seq![Metric::CpuAverage(cpu_bits)] + temp_metrics(r.cpu_temp)
        + match (r.memory, r.uptime) {
        (Some(m), Some(u)) => seq![
            Metric::MemTotal(m.total),
            Metric::MemUsed(sat_sub(m.total, m.free)),
            Metric::Uptime(u),
        ],
        _ => Seq::empty(),
    }
}

} // verus!
