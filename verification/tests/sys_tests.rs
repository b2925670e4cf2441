//! Behaviour of the quota probe, the memory-pressure monitor, the
//! thread-priority controller and the cache-geometry parser.

use engine_sysconf::cache::{cache_line_size, cache_size, parse_size};
use engine_sysconf::memory::MemoryPressureMonitor;
use engine_sysconf::priority::{get_priority, set_priority, OsError, HIGH_PRI};
use engine_sysconf::quota::{combine_cpu_quota, memory_ceiling, SysQuota};

#[test]
fn test_set_priority() {
    // priority is a value in range -20 to 19, the default priority
    // is 0, lower priorities cause more favorable scheduling.
    assert_eq!(get_priority().unwrap(), 0);
    set_priority(10).unwrap();
    assert_eq!(get_priority().unwrap(), 10);

    // only privileged users can increase priority.
    let ret = set_priority(HIGH_PRI);
    if let Err(e) = ret {
        assert_eq!(e, OsError::PermissionDenied);
        assert_eq!(get_priority().unwrap(), 10);
    } else {
        assert_eq!(get_priority().unwrap(), HIGH_PRI);
    }
}

#[test]
fn high_water_mark_reports_pressure() {
    let mut monitor = MemoryPressureMonitor::new();
    monitor.register_memory_usage_high_water(100);

    monitor.set_usage(150);
    let mut usage: u64 = 0;
    assert!(monitor.memory_usage_reaches_high_water(&mut usage));
    assert_eq!(usage, 150);

    monitor.set_usage(50);
    assert!(!monitor.memory_usage_reaches_high_water(&mut usage));
    assert_eq!(usage, 50);

    // At the mark counts as reached.
    monitor.set_usage(100);
    assert!(monitor.memory_usage_reaches_high_water(&mut usage));
    assert_eq!(usage, 100);
}

#[test]
fn fresh_monitor_reports_no_pressure() {
    let monitor = MemoryPressureMonitor::new();
    assert_eq!(monitor.get_global_memory_usage(), 0);
    let mut usage: u64 = 7;
    assert!(!monitor.memory_usage_reaches_high_water(&mut usage));
    assert_eq!(usage, 0);
}

#[test]
fn pressure_override_forces_the_condition() {
    let mut monitor = MemoryPressureMonitor::new();
    monitor.register_memory_usage_high_water(u64::MAX);
    monitor.set_usage(1);
    monitor.force_memory_usage_high_water(true);
    let mut usage: u64 = 42;
    assert!(monitor.memory_usage_reaches_high_water(&mut usage));
    // The forced path reports pressure without touching the output.
    assert_eq!(usage, 42);
    monitor.force_memory_usage_high_water(false);
    assert!(!monitor.memory_usage_reaches_high_water(&mut usage));
    assert_eq!(usage, 1);
}

#[test]
fn recording_usage_samples_resident_memory() {
    let mut monitor = MemoryPressureMonitor::new();
    monitor.record_global_memory_usage();
    // A running process is resident, so the sampled figure is positive.
    assert!(monitor.get_global_memory_usage() > 0);
}

#[test]
fn cpu_quota_combines_the_tightest_constraints() {
    // No constraint present: the host budget stands.
    assert_eq!(combine_cpu_quota(8, 0, 0, 0), 8000);
    // The CPU set tightens the host budget.
    assert_eq!(combine_cpu_quota(8, 4, 0, 0), 4000);
    // A fractional CPU-time quota tightens further.
    assert_eq!(combine_cpu_quota(8, 4, 2500, 0), 2500);
    // A smaller operator override wins.
    assert_eq!(combine_cpu_quota(8, 4, 2500, 2000), 2000);
    // A larger operator override changes nothing.
    assert_eq!(combine_cpu_quota(8, 4, 2500, 6000), 2500);
    assert_eq!(combine_cpu_quota(4, 0, 0, 9000), 4000);
    // A present-but-zero quota never tightens the bound.
    assert_eq!(combine_cpu_quota(2, 0, 0, 0), 2000);
}

#[test]
fn cpu_quota_probe_respects_the_override() {
    // The host has at least one core, so a 500-millicore override is the
    // tightest constraint and becomes the result.
    assert_eq!(SysQuota::cpu_cores_quota(0, 0, 500), 500);
    // Without any constraint the probe reports at least one full core.
    assert!(SysQuota::cpu_cores_quota(0, 0, 0) >= 1000);
}

#[test]
fn memory_ceiling_combines_host_and_container() {
    assert_eq!(memory_ceiling(100, 0), 100);
    assert_eq!(memory_ceiling(100, -5), 100);
    assert_eq!(memory_ceiling(100, 50), 50);
    assert_eq!(memory_ceiling(100, 200), 100);
}

#[test]
fn memory_limit_probe_reads_the_host() {
    // Any real host has more than a mebibyte of memory.
    assert!(SysQuota::memory_limit_in_bytes(0) > (1 << 20));
    // A tiny positive container limit wins over the host total.
    assert_eq!(SysQuota::memory_limit_in_bytes(1), 1);
}

#[test]
fn log_quota_emits_without_failing() {
    SysQuota::log_quota(0, 0, 0, 0);
}

#[test]
fn cache_reads_parse_host_figures() {
    assert_eq!(cache_size(Some("32K\n")), Some(32768));
    assert_eq!(cache_line_size(Some("64\n")), Some(64));
    assert_eq!(cache_size(Some("8M")), Some(8 * 1024 * 1024));
    assert_eq!(cache_size(Some(" 16KiB ")), Some(16384));
    assert_eq!(cache_size(Some("1GB")), Some(1024 * 1024 * 1024));
}

#[test]
fn absent_or_malformed_topology_is_unknown() {
    assert_eq!(cache_size(None), None);
    assert_eq!(cache_line_size(None), None);
    assert_eq!(cache_size(Some("")), None);
    assert_eq!(cache_size(Some("K")), None);
    assert_eq!(cache_size(Some("12XB")), None);
    assert_eq!(cache_size(Some("size: 32K")), None);
}

#[test]
fn unrepresentable_sizes_are_unknown() {
    assert_eq!(parse_size("18446744073709551615"), Some(u64::MAX));
    assert_eq!(parse_size("18446744073709551616"), None);
    assert_eq!(parse_size("99999999999999999999P"), None);
    assert_eq!(parse_size("16384P"), None);
    assert_eq!(parse_size("4P"), Some(4 * (1 << 50)));
}
