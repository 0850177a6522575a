use cgroup_stats::cpu::cpu_throttling;
use cgroup_stats::cpu::pick_throttling;
use cgroup_stats::cpu::CPU_STAT;
use cgroup_stats::error::StatsError;
use cgroup_stats::files::CgroupDir;
use cgroup_stats::keyed::find_value;
use cgroup_stats::keyed::parse_keyed;
use cgroup_stats::memory::memory_counters;
use cgroup_stats::memory::memory_data;
use cgroup_stats::memory::MEMORY;
use cgroup_stats::memory::MEMORY_AND_SWAP;
use cgroup_stats::memory::MEMORY_KERNEL;
use cgroup_stats::memory::MEMORY_KERNEL_TCP;
use cgroup_stats::stats::CpuThrottling;
use cgroup_stats::stats::MemoryData;

fn dir_of(files: &[(&str, &str)]) -> CgroupDir {
    let mut dir = CgroupDir::new("/cg");
    for (name, content) in files {
        dir.add_file(name, content);
    }
    dir
}

fn pair(key: &str, value: u64) -> (String, u64) {
    (key.to_string(), value)
}

#[test]
fn parse_keyed_keeps_keys_and_order() {
    assert_eq!(
        parse_keyed("cache 4096\nrss 0\n\ntotal_inactive_file  12\n"),
        Some(vec![pair("cache", 4096), pair("rss", 0), pair("total_inactive_file", 12)])
    );
    assert_eq!(parse_keyed(""), Some(Vec::new()));
}

#[test]
fn parse_keyed_rejects_other_lines() {
    assert_eq!(parse_keyed("cache 4096\nrss\n"), None);
    assert_eq!(parse_keyed("cache 4096 extra\n"), None);
    assert_eq!(parse_keyed("cache many\n"), None);
    assert_eq!(parse_keyed("cache -1\n"), None);
}

#[test]
fn find_value_takes_first_of_a_key() {
    let pairs = vec![pair("a", 1), pair("b", 2), pair("a", 3)];
    assert_eq!(find_value(&pairs, "a"), Some(1));
    assert_eq!(find_value(&pairs, "b"), Some(2));
    assert_eq!(find_value(&pairs, "c"), None);
    assert_eq!(find_value(&Vec::new(), "a"), None);
}

#[test]
fn cpu_throttling_from_cpu_stat() {
    let dir = dir_of(&[("cpu.stat", "nr_periods 165000\nnr_throttled 27\nthrottled_time 1080105\n")]);
    assert_eq!(
        cpu_throttling(&dir),
        Ok(CpuThrottling { periods: 165000, throttled_periods: 27, throttled_time: 1080105 })
    );
}

#[test]
fn cpu_throttling_in_any_line_order() {
    let pairs = vec![pair("throttled_time", 3), pair("other", 9), pair("nr_throttled", 2), pair("nr_periods", 1)];
    assert_eq!(
        pick_throttling(&pairs),
        Some(CpuThrottling { periods: 1, throttled_periods: 2, throttled_time: 3 })
    );
}

#[test]
fn cpu_throttling_without_a_counter_is_parse_error() {
    let content = "nr_periods 1\nnr_throttled 2\n";
    let dir = dir_of(&[("cpu.stat", content)]);
    assert_eq!(
        cpu_throttling(&dir),
        Err(StatsError::Parse { path: "/cg/cpu.stat".to_string(), value: content.to_string() })
    );
}

#[test]
fn cpu_throttling_with_bad_line_is_parse_error() {
    let content = "nr_periods 1\nnr_throttled 2\nthrottled_time soon\n";
    let dir = dir_of(&[("cpu.stat", content)]);
    assert_eq!(
        cpu_throttling(&dir),
        Err(StatsError::Parse { path: "/cg/cpu.stat".to_string(), value: content.to_string() })
    );
}

#[test]
fn cpu_throttling_without_file_is_io_error() {
    assert_eq!(CPU_STAT, "cpu.stat");
    assert_eq!(
        cpu_throttling(&dir_of(&[])),
        Err(StatsError::Io { path: "/cg/cpu.stat".to_string() })
    );
}

#[test]
fn memory_data_of_each_kind() {
    let dir = dir_of(&[
        ("memory.usage_in_bytes", "1024\n"),
        ("memory.max_usage_in_bytes", "2048\n"),
        ("memory.failcnt", "5\n"),
        ("memory.limit_in_bytes", "9223372036854771712\n"),
        ("memory.memsw.usage_in_bytes", "1\n"),
        ("memory.memsw.max_usage_in_bytes", "2\n"),
        ("memory.memsw.failcnt", "3\n"),
        ("memory.memsw.limit_in_bytes", "4\n"),
        ("memory.kmem.usage_in_bytes", "5\n"),
        ("memory.kmem.max_usage_in_bytes", "6\n"),
        ("memory.kmem.failcnt", "7\n"),
        ("memory.kmem.limit_in_bytes", "8\n"),
        ("memory.kmem.tcp.usage_in_bytes", "9\n"),
        ("memory.kmem.tcp.max_usage_in_bytes", "10\n"),
        ("memory.kmem.tcp.failcnt", "11\n"),
        ("memory.kmem.tcp.limit_in_bytes", "18446744073709551615\n"),
    ]);
    assert_eq!(
        memory_data(&dir, MEMORY),
        Ok(MemoryData { usage: 1024, max_usage: 2048, fail_count: 5, limit: 9223372036854771712 })
    );
    assert_eq!(
        memory_data(&dir, MEMORY_AND_SWAP),
        Ok(MemoryData { usage: 1, max_usage: 2, fail_count: 3, limit: 4 })
    );
    assert_eq!(
        memory_data(&dir, MEMORY_KERNEL),
        Ok(MemoryData { usage: 5, max_usage: 6, fail_count: 7, limit: 8 })
    );
    assert_eq!(
        memory_data(&dir, MEMORY_KERNEL_TCP),
        Ok(MemoryData { usage: 9, max_usage: 10, fail_count: 11, limit: u64::MAX })
    );
}

#[test]
fn memory_data_fails_on_first_missing_file() {
    let dir = dir_of(&[("memory.usage_in_bytes", "1024\n"), ("memory.failcnt", "x\n")]);
    assert_eq!(
        memory_data(&dir, MEMORY),
        Err(StatsError::Io { path: "/cg/memory.max_usage_in_bytes".to_string() })
    );
}

#[test]
fn memory_data_parse_error_holds_path_and_content() {
    let dir = dir_of(&[("memory.usage_in_bytes", "much\n")]);
    assert_eq!(
        memory_data(&dir, MEMORY),
        Err(StatsError::Parse {
            path: "/cg/memory.usage_in_bytes".to_string(),
            value: "much\n".to_string(),
        })
    );
}

#[test]
fn memory_counters_from_memory_stat() {
    let dir = dir_of(&[("memory.stat", "cache 4096\nrss 8192\nhierarchical_memory_limit 1\n")]);
    assert_eq!(
        memory_counters(&dir),
        Ok(vec![pair("cache", 4096), pair("rss", 8192), pair("hierarchical_memory_limit", 1)])
    );
}

#[test]
fn memory_counters_failures() {
    assert_eq!(
        memory_counters(&dir_of(&[])),
        Err(StatsError::Io { path: "/cg/memory.stat".to_string() })
    );
    assert_eq!(
        memory_counters(&dir_of(&[("memory.stat", "cache\n")])),
        Err(StatsError::Parse { path: "/cg/memory.stat".to_string(), value: "cache\n".to_string() })
    );
}
