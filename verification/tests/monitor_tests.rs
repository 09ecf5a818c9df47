use memory_monitor::CpuPoll;
use memory_monitor::LoadAvgReading;
use memory_monitor::MemoryReading;
use memory_monitor::Metric;
use memory_monitor::Readings;
use memory_monitor::SysMonitor;
use memory_monitor::UpdateError;

fn full_readings() -> Readings {
    Readings {
        memory: Some(MemoryReading { total: 8_000_000_000, free: 2_000_000_000 }),
        uptime: Some(3600),
        load_average: Some(LoadAvgReading {
            one: 0.5f32.to_bits(),
            five: 0.25f32.to_bits(),
            fifteen: 0.125f32.to_bits(),
        }),
        cpu_temp: Some(55.0f32.to_bits()),
    }
}

fn cpu_average_of(snapshot: &[Metric]) -> Option<u32> {
    let mut found = None;
    for m in snapshot {
        if let Metric::CpuAverage(v) = m {
            assert!(found.is_none(), "more than one CpuAverage entry");
            found = Some(*v);
        }
    }
    found
}

#[test]
fn first_refresh_starts_measurement_with_placeholder() {
    let mut monitor = SysMonitor::new();
    assert_eq!(monitor.metrics(), vec![]);
    let started = monitor.update(&full_readings(), CpuPoll::Pending);
    assert_eq!(started, Ok(true));
    let snapshot = monitor.metrics();
    assert_eq!(cpu_average_of(&snapshot), Some(0.0f32.to_bits()));
}

#[test]
fn completed_measurement_visible_then_idle_again() {
    let mut monitor = SysMonitor::new();
    assert_eq!(monitor.update(&full_readings(), CpuPoll::Pending), Ok(true));
    let measured = 0.75f32.to_bits();
    assert_eq!(monitor.update(&full_readings(), CpuPoll::Done(measured)), Ok(false));
    assert_eq!(cpu_average_of(&monitor.metrics()), Some(measured));
    // Back to idle: the next refresh starts a fresh measurement and the
    // value stays until that one completes.
    assert_eq!(monitor.update(&full_readings(), CpuPoll::Pending), Ok(true));
    assert_eq!(cpu_average_of(&monitor.metrics()), Some(measured));
    assert_eq!(monitor.update(&full_readings(), CpuPoll::Pending), Ok(false));
    assert_eq!(cpu_average_of(&monitor.metrics()), Some(measured));
}

#[test]
fn mem_used_saturates_at_zero() {
    let mut monitor = SysMonitor::new();
    let readings = Readings {
        memory: Some(MemoryReading { total: 1000, free: 1500 }),
        uptime: Some(10),
        load_average: None,
        cpu_temp: None,
    };
    assert_eq!(monitor.update(&readings, CpuPoll::Pending), Ok(true));
    let snapshot = monitor.metrics();
    assert!(snapshot.contains(&Metric::MemUsed(0)));
    assert!(snapshot.contains(&Metric::MemTotal(1000)));
}

#[test]
fn mem_used_exact_difference() {
    let mut monitor = SysMonitor::new();
    let readings = Readings {
        memory: Some(MemoryReading { total: 8_000_000_000, free: 2_000_000_000 }),
        uptime: Some(10),
        load_average: None,
        cpu_temp: None,
    };
    assert_eq!(monitor.update(&readings, CpuPoll::Pending), Ok(true));
    assert!(monitor.metrics().contains(&Metric::MemUsed(6_000_000_000)));
}

#[test]
fn load_average_unsupported_is_omitted() {
    let mut monitor = SysMonitor::new();
    let mut readings = full_readings();
    readings.load_average = None;
    assert_eq!(monitor.update(&readings, CpuPoll::Pending), Ok(true));
    let snapshot = monitor.metrics();
    assert!(!snapshot.is_empty());
    for m in &snapshot {
        assert!(!matches!(
            m,
            Metric::LoadAverage1(_) | Metric::LoadAverage5(_) | Metric::LoadAverage15(_)
        ));
    }
}

#[test]
fn cpu_temp_failure_is_tolerated() {
    let mut monitor = SysMonitor::new();
    let mut readings = full_readings();
    readings.cpu_temp = None;
    assert_eq!(monitor.update(&readings, CpuPoll::Pending), Ok(true));
    let snapshot = monitor.metrics();
    assert!(!snapshot.is_empty());
    for m in &snapshot {
        assert!(!matches!(m, Metric::CpuTemp(_)));
    }
}

#[test]
fn missing_memory_fails_and_keeps_snapshot() {
    let mut monitor = SysMonitor::new();
    assert_eq!(monitor.update(&full_readings(), CpuPoll::Pending), Ok(true));
    let before = monitor.metrics();
    let mut readings = full_readings();
    readings.memory = None;
    assert_eq!(
        monitor.update(&readings, CpuPoll::Pending),
        Err(UpdateError::SourceUnavailable)
    );
    assert_eq!(monitor.metrics(), before);
}

#[test]
fn missing_uptime_fails_and_keeps_snapshot() {
    let mut monitor = SysMonitor::new();
    assert_eq!(monitor.update(&full_readings(), CpuPoll::Pending), Ok(true));
    let before = monitor.metrics();
    let mut readings = full_readings();
    readings.uptime = None;
    assert_eq!(
        monitor.update(&readings, CpuPoll::Pending),
        Err(UpdateError::SourceUnavailable)
    );
    assert_eq!(monitor.metrics(), before);
}

#[test]
fn join_failure_discards_cycle_and_recovers() {
    let mut monitor = SysMonitor::new();
    assert_eq!(monitor.update(&full_readings(), CpuPoll::Pending), Ok(true));
    let before = monitor.metrics();
    assert_eq!(
        monitor.update(&full_readings(), CpuPoll::Failed),
        Err(UpdateError::TaskJoinFailure)
    );
    assert_eq!(monitor.metrics(), before);
    // Recovered to idle: the next refresh starts a new measurement.
    assert_eq!(monitor.update(&full_readings(), CpuPoll::Pending), Ok(true));
    assert_eq!(cpu_average_of(&monitor.metrics()), Some(0.0f32.to_bits()));
}

#[test]
fn at_most_one_measurement_in_flight() {
    let mut monitor = SysMonitor::new();
    let readings = full_readings();
    let mut in_flight: u32 = 0;
    let polls = [
        CpuPoll::Pending,
        CpuPoll::Pending,
        CpuPoll::Pending,
        CpuPoll::Done(0.5f32.to_bits()),
        CpuPoll::Pending,
        CpuPoll::Pending,
        CpuPoll::Done(0.25f32.to_bits()),
        CpuPoll::Pending,
    ];
    for poll in polls {
        if matches!(poll, CpuPoll::Done(_)) && in_flight > 0 {
            in_flight -= 1;
        }
        let started = monitor.update(&readings, poll).unwrap();
        if started {
            in_flight += 1;
        }
        assert!(in_flight <= 1);
    }
}

#[test]
fn snapshot_has_expected_shape_and_order() {
    let mut monitor = SysMonitor::new();
    assert_eq!(monitor.update(&full_readings(), CpuPoll::Pending), Ok(true));
    assert_eq!(
        monitor.metrics(),
        vec![
            Metric::LoadAverage1(0.5f32.to_bits()),
            Metric::LoadAverage5(0.25f32.to_bits()),
            Metric::LoadAverage15(0.125f32.to_bits()),
            Metric::CpuAverage(0.0f32.to_bits()),
            Metric::CpuTemp(55.0f32.to_bits()),
            Metric::MemTotal(8_000_000_000),
            Metric::MemUsed(6_000_000_000),
            Metric::Uptime(3600),
        ]
    );
}

#[test]
fn snapshot_has_one_metric_per_kind() {
    let mut monitor = SysMonitor::new();
    assert_eq!(monitor.update(&full_readings(), CpuPoll::Pending), Ok(true));
    let snapshot = monitor.metrics();
    let mut counts = [0u32; 8];
    for m in &snapshot {
        let slot = match m {
            Metric::CpuAverage(_) => 0,
            Metric::CpuTemp(_) => 1,
            Metric::MemTotal(_) => 2,
            Metric::MemUsed(_) => 3,
            Metric::Uptime(_) => 4,
            Metric::LoadAverage1(_) => 5,
            Metric::LoadAverage5(_) => 6,
            Metric::LoadAverage15(_) => 7,
        };
        counts[slot] += 1;
    }
    for count in counts {
        assert_eq!(count, 1);
    }
}

#[test]
fn metrics_returns_a_defensive_copy() {
    let mut monitor = SysMonitor::new();
    assert_eq!(monitor.update(&full_readings(), CpuPoll::Pending), Ok(true));
    let mut copy = monitor.metrics();
    copy.clear();
    assert_eq!(monitor.metrics().len(), 8);
}
