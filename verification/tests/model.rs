use cgroup_stats::stats::BlkioDeviceStat;
use cgroup_stats::stats::BlkioStats;
use cgroup_stats::stats::CpuStats;
use cgroup_stats::stats::CpuThrottling;
use cgroup_stats::stats::CpuUsage;
use cgroup_stats::stats::HugeTlbStats;
use cgroup_stats::stats::MemoryData;
use cgroup_stats::stats::MemoryStats;
use cgroup_stats::stats::PidStats;
use cgroup_stats::stats::Stats;

#[test]
fn device_stat_display_with_operation() {
    let stat = BlkioDeviceStat { major: 8, minor: 0, op_type: Some("Read".to_string()), value: 1024 };
    assert_eq!(stat.to_display_string(), "8:0 Read 1024");
}

#[test]
fn device_stat_display_without_operation() {
    let stat = BlkioDeviceStat { major: 8, minor: 0, op_type: None, value: 2048 };
    assert_eq!(stat.to_display_string(), "8:0 2048");
}

#[test]
fn device_stat_display_of_large_numbers() {
    let stat = BlkioDeviceStat {
        major: 253,
        minor: 17,
        op_type: Some("Total".to_string()),
        value: u64::MAX,
    };
    assert_eq!(stat.to_display_string(), "253:17 Total 18446744073709551615");
}

fn assert_memory_data_zero(data: &MemoryData) {
    assert_eq!(data, &MemoryData { usage: 0, max_usage: 0, fail_count: 0, limit: 0 });
}

fn assert_cpu_usage_zero(usage: &CpuUsage) {
    assert_eq!(usage.usage_total, 0);
    assert_eq!(usage.usage_user, 0);
    assert_eq!(usage.usage_kernel, 0);
    assert!(usage.per_core_usage_total.is_empty());
    assert!(usage.per_core_usage_user.is_empty());
    assert!(usage.per_core_usage_kernel.is_empty());
}

fn assert_blkio_empty(blkio: &BlkioStats) {
    assert!(blkio.service_bytes.is_empty());
    assert!(blkio.serviced.is_empty());
    assert!(blkio.time.is_empty());
    assert!(blkio.sectors.is_empty());
    assert!(blkio.service_time.is_empty());
    assert!(blkio.wait_time.is_empty());
    assert!(blkio.queued.is_empty());
    assert!(blkio.merged.is_empty());
}

fn assert_memory_empty(memory: &MemoryStats) {
    assert_memory_data_zero(&memory.memory);
    assert_memory_data_zero(&memory.memswap);
    assert_memory_data_zero(&memory.kernel);
    assert_memory_data_zero(&memory.kernel_tcp);
    assert_eq!(memory.cache, 0);
    assert!(!memory.hierarchy);
    assert!(memory.stats.is_empty());
}

#[test]
fn default_stats_is_empty() {
    let stats = Stats::default();
    assert_cpu_usage_zero(&stats.cpu.usage);
    assert_eq!(
        stats.cpu.throttling,
        CpuThrottling { periods: 0, throttled_periods: 0, throttled_time: 0 }
    );
    assert_eq!(stats.pids, PidStats { current: 0, limit: 0 });
    assert!(stats.hugetlb.is_empty());
    assert_blkio_empty(&stats.blkio);
    assert_memory_empty(&stats.memory);
}

#[test]
fn default_of_each_controller_is_empty() {
    let cpu = CpuStats::default();
    assert_cpu_usage_zero(&cpu.usage);
    assert_eq!(cpu.throttling, CpuThrottling::default());
    assert_cpu_usage_zero(&CpuUsage::default());
    assert_eq!(
        CpuThrottling::default(),
        CpuThrottling { periods: 0, throttled_periods: 0, throttled_time: 0 }
    );
    assert_memory_empty(&MemoryStats::default());
    assert_memory_data_zero(&MemoryData::default());
    assert_eq!(PidStats::default(), PidStats { current: 0, limit: 0 });
    assert_blkio_empty(&BlkioStats::default());
    assert_eq!(HugeTlbStats::default(), HugeTlbStats { usage: 0, max_usage: 0, fail_count: 0 });
}
