use std::time::{SystemTime, UNIX_EPOCH};
use sys_monitor::metrics::SystemMetrics;
use sys_monitor::sampler::{gather_metrics, snapshot, timestamp_or_zero};
use sysinfo::{CpuExt, System, SystemExt};

#[test]
fn clock_fault_gives_timestamp_zero() {
    assert_eq!(timestamp_or_zero(None), 0);
    assert_eq!(timestamp_or_zero(Some(1000)), 1000);
    assert_eq!(timestamp_or_zero(Some(u64::MAX)), u64::MAX);
}

#[test]
fn snapshot_holds_what_it_was_given() {
    assert_eq!(
        snapshot(Some(1000), Some("42.5".to_string()), 4096, 8192, 120),
        SystemMetrics {
            timestamp: 1000,
            cpu_usage_percent: "42.5".to_string(),
            memory_used_kb: 4096,
            memory_total_kb: 8192,
            running_processes: 120,
        }
    );
}

#[test]
fn snapshot_without_clock_or_text() {
    let m = snapshot(None, None, 1, 2, 3);
    assert_eq!(m.timestamp, 0);
    assert_eq!(m.cpu_usage_percent, "");
    assert!(!m.is_encodable());
    assert_eq!((m.memory_used_kb, m.memory_total_kb, m.running_processes), (1, 2, 3));
}

#[test]
fn sampling_reads_what_the_source_holds() {
    let mut sys = System::new_all();
    let before = SystemTime::now().duration_since(UNIX_EPOCH).unwrap().as_secs();
    let m = gather_metrics(&mut sys);
    let after = SystemTime::now().duration_since(UNIX_EPOCH).unwrap().as_secs();
    assert_eq!(m.memory_used_kb, sys.used_memory());
    assert_eq!(m.memory_total_kb, sys.total_memory());
    assert_eq!(m.running_processes, sys.processes().len());
    assert_eq!(
        m.cpu_usage_percent,
        serde_json::to_string(&sys.global_cpu_info().cpu_usage()).unwrap()
    );
    assert!(before <= m.timestamp && m.timestamp <= after);
}

#[test]
fn sampling_refreshes_the_source() {
    let mut sys = System::new();
    assert_eq!(sys.total_memory(), 0);
    assert_eq!(sys.processes().len(), 0);
    let m = gather_metrics(&mut sys);
    assert!(m.memory_total_kb > 0);
    assert!(m.running_processes > 0);
    assert!(m.is_memory_consistent());
}

#[test]
fn sampling_twice_gives_two_snapshots() {
    let mut sys = System::new_all();
    let first = gather_metrics(&mut sys);
    let second = gather_metrics(&mut sys);
    assert!(first.timestamp <= second.timestamp);
    assert_eq!(first.memory_total_kb, second.memory_total_kb);
}
