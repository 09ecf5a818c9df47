//! A small host-health sampler: on each tick it folds the metrics source's
//! point-in-time readings and the state of a slow, two-phase background CPU
//! measurement into the latest snapshot of [`Metric`] values, without ever
//! blocking the tick on the measurement's mandatory settle interval.

mod laws;
mod metric;
mod monitor;

pub use laws::TickInput;
pub use laws::in_flight;
pub use laws::is_load_metric;
pub use laws::lemma_at_most_one_measurement;
pub use laws::lemma_completed_measurement_visible;
pub use laws::lemma_cpu_temp_omitted;
pub use laws::lemma_cpu_value_persists;
pub use laws::lemma_failed_refresh_keeps_snapshot;
pub use laws::lemma_load_average_omitted;
pub use laws::lemma_refresh_shows_last_cpu;
pub use laws::lemma_snapshot_one_per_kind;
pub use laws::lemma_snapshot_shows_cpu;
pub use laws::run;
pub use laws::same_kind;
pub use laws::shows_cpu;

pub use metric::CpuPoll;
pub use metric::LoadAvgReading;
pub use metric::MemoryReading;
pub use metric::Metric;
pub use metric::Readings;
pub use metric::UpdateError;
pub use metric::load_metrics;
pub use metric::sat_sub;
pub use metric::snapshot_of;
pub use metric::temp_metrics;
pub use monitor::MonitorModel;
pub use monitor::StepOutcome;
pub use monitor::SysMonitor;
pub use monitor::TaskState;
pub use monitor::loadaverage;
pub use monitor::spec_step;
