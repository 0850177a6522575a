//! The statistics of each controller, and the parsers that fill them.

use std::collections::HashMap;
use vstd::prelude::*;
use vstd::string::StringExecFns;
use crate::error::lemma_same_outcome;
use crate::error::outcome_is;
use crate::error::StatsError;
use crate::error::StatsErrorView;
use crate::files::join_path;
use crate::files::CgroupDir;
use crate::text::chars_of;
use crate::text::decimal;
use crate::text::decimal_string;
use crate::text::lemma_parse_decimal;
use crate::text::matches_at;
use crate::text::parse_trimmed_u64;
use crate::text::parse_u64_range;
use crate::text::parse_u64_spec;
use crate::text::trim_bounds;
use crate::text::trim_spec;

verus! {

/// The file that holds the number of live processes.
pub const PIDS_CURRENT: &'static str = "pids.current";

/// The file that holds the allowed number of processes.
pub const PIDS_MAX: &'static str = "pids.max";

/// What `pids.max` holds where no limit is set.
pub const PIDS_UNLIMITED: &'static str = "max";

/// A controller whose statistics can be collected from a control group's
/// directory.
pub trait StatsProvider {
    type Stats;

    /// Whether `outcome` is what collecting from `dir` gives.
    spec fn collected(dir: &CgroupDir, outcome: Result<Self::Stats, StatsError>) -> bool;

    /// Collects the controller's statistics: all of them, or an error.
    fn stats(dir: &CgroupDir) -> (r: Result<Self::Stats, StatsError>)
        ensures
            Self::collected(dir, r),
    ;
}

/// The statistics of one control group.
#[derive(Debug)]
pub struct Stats {
    /// Cpu statistics
    pub cpu: CpuStats,
    /// Pid statistics
    pub pids: PidStats,
    /// Hugetlb statistics, by page size ("2MB", "1GB")
    pub hugetlb: HashMap<String, HugeTlbStats>,
    /// Blkio statistics
    pub blkio: BlkioStats,
    /// Memory statistics
    pub memory: MemoryStats,
}

impl Stats {
    /// Nothing was collected: every number is zero, every sequence and map
    /// is empty.
    pub open spec fn is_empty(&self) -> bool {
        &&& self.cpu.is_empty()
        &&& self.pids.is_empty()
        &&& self.hugetlb@ == Map::<String, HugeTlbStats>::empty()
        &&& self.blkio.is_empty()
        &&& self.memory.is_empty()
    }
}

impl Default for Stats {
    fn default() -> (r: Self)
        ensures
            r.is_empty(),
    {
        Self {
            cpu: CpuStats::default(),
            pids: PidStats::default(),
            hugetlb: HashMap::new(),
            blkio: BlkioStats::default(),
            memory: MemoryStats::default(),
        }
    }
}

/// The cpu statistics of a control group.
#[derive(Debug)]
pub struct CpuStats {
    /// Cpu usage
    pub usage: CpuUsage,
    /// Cpu throttling
    pub throttling: CpuThrottling,
}

impl CpuStats {
    /// Nothing was collected: every number is zero, and what can be empty is
    /// empty.
    pub open spec fn is_empty(&self) -> bool {
        self.usage.is_empty() && self.throttling.is_empty()
    }
}

impl Default for CpuStats {
    fn default() -> (r: Self)
        ensures
            r.is_empty(),
    {
        Self { usage: CpuUsage::default(), throttling: CpuThrottling::default() }
    }
}

/// The cpu time that a control group used, in nanoseconds.
#[derive(Debug, PartialEq, Eq)]
pub struct CpuUsage {
    /// Cpu time consumed by tasks in total
    pub usage_total: u64,
    /// Cpu time consumed by tasks in user mode
    pub usage_user: u64,
    /// Cpu time consumed by tasks in kernel mode
    pub usage_kernel: u64,
    /// Cpu time consumed by tasks, one entry per core
    pub per_core_usage_total: Vec<u64>,
    /// Cpu time consumed by tasks in user mode, one entry per core
    pub per_core_usage_user: Vec<u64>,
    /// Cpu time consumed by tasks in kernel mode, one entry per core
    pub per_core_usage_kernel: Vec<u64>,
}

impl CpuUsage {
    /// Nothing was collected: every number is zero, and what can be empty is
    /// empty.
    pub open spec fn is_empty(&self) -> bool {
        &&& self.usage_total == 0
        &&& self.usage_user == 0
        &&& self.usage_kernel == 0
        &&& self.per_core_usage_total@ == Seq::<u64>::empty()
        &&& self.per_core_usage_user@ == Seq::<u64>::empty()
        &&& self.per_core_usage_kernel@ == Seq::<u64>::empty()
    }
}

impl Default for CpuUsage {
    fn default() -> (r: Self)
        ensures
            r.is_empty(),
    {
        Self {
            usage_total: 0,
            usage_user: 0,
            usage_kernel: 0,
            per_core_usage_total: Vec::new(),
            per_core_usage_user: Vec::new(),
            per_core_usage_kernel: Vec::new(),
        }
    }
}

/// How often and how long a control group was throttled.
#[derive(Debug, PartialEq, Eq)]
pub struct CpuThrottling {
    /// Number of period intervals that have elapsed
    pub periods: u64,
    /// Number of period intervals in which tasks were throttled because
    /// they had used up their quota
    pub throttled_periods: u64,
    /// Total time for which tasks have been throttled
    pub throttled_time: u64,
}

impl CpuThrottling {
    /// Nothing was collected: every number is zero, and what can be empty is
    /// empty.
    pub open spec fn is_empty(&self) -> bool {
        self.periods == 0 && self.throttled_periods == 0 && self.throttled_time == 0
    }
}

impl Default for CpuThrottling {
    fn default() -> (r: Self)
        ensures
            r.is_empty(),
    {
        Self { periods: 0, throttled_periods: 0, throttled_time: 0 }
    }
}

/// The memory statistics of a control group.
#[derive(Debug)]
pub struct MemoryStats {
    /// Usage of memory
    pub memory: MemoryData,
    /// Usage of memory and swap
    pub memswap: MemoryData,
    /// Usage of kernel memory
    pub kernel: MemoryData,
    /// Usage of kernel tcp memory
    pub kernel_tcp: MemoryData,
    /// Page cache in bytes
    pub cache: u64,
    /// Whether hierarchical accounting is enabled
    pub hierarchy: bool,
    /// The kernel's named counters, each under the key that the kernel gave
    pub stats: HashMap<String, u64>,
}

impl MemoryStats {
    /// Nothing was collected: every number is zero, the flag is not set, and
    /// there is no named counter.
    pub open spec fn is_empty(&self) -> bool {
        &&& self.memory.is_empty()
        &&& self.memswap.is_empty()
        &&& self.kernel.is_empty()
        &&& self.kernel_tcp.is_empty()
        &&& self.cache == 0
        &&& !self.hierarchy
        &&& self.stats@ == Map::<String, u64>::empty()
    }
}

impl Default for MemoryStats {
    fn default() -> (r: Self)
        ensures
            r.is_empty(),
    {
        Self {
            memory: MemoryData::default(),
            memswap: MemoryData::default(),
            kernel: MemoryData::default(),
            kernel_tcp: MemoryData::default(),
            cache: 0,
            hierarchy: false,
            stats: HashMap::new(),
        }
    }
}

/// The statistics of one kind of memory.
#[derive(Debug, PartialEq, Eq)]
pub struct MemoryData {
    /// Usage in bytes
    pub usage: u64,
    /// Maximum recorded usage in bytes
    pub max_usage: u64,
    /// Number of times memory usage hit limits
    pub fail_count: u64,
    /// Memory usage limit, as the kernel reports it
    pub limit: u64,
}

impl MemoryData {
    /// Nothing was collected: every number is zero, and what can be empty is
    /// empty.
    pub open spec fn is_empty(&self) -> bool {
        self.usage == 0 && self.max_usage == 0 && self.fail_count == 0 && self.limit == 0
    }
}

impl Default for MemoryData {
    fn default() -> (r: Self)
        ensures
            r.is_empty(),
    {
        Self { usage: 0, max_usage: 0, fail_count: 0, limit: 0 }
    }
}

/// The process counts of a control group.
#[derive(Debug, PartialEq, Eq)]
pub struct PidStats {
    /// Current number of active pids
    pub current: u64,
    /// Allowed number of active pids. Zero stands for "no limit", and cannot
    /// be told from a limit of zero processes.
    pub limit: u64,
}

impl PidStats {
    /// Nothing was collected: every number is zero, and what can be empty is
    /// empty.
    pub open spec fn is_empty(&self) -> bool {
        self.current == 0 && self.limit == 0
    }
}

impl Default for PidStats {
    fn default() -> (r: Self)
        ensures
            r.is_empty(),
    {
        Self { current: 0, limit: 0 }
    }
}

/// The block io statistics of a control group, one sequence per kind.
#[derive(Debug, PartialEq, Eq)]
pub struct BlkioStats {
    /// Number of bytes transferred to or from a device
    pub service_bytes: Vec<BlkioDeviceStat>,
    /// Number of I/O operations performed on a device
    pub serviced: Vec<BlkioDeviceStat>,
    /// Time in milliseconds for which the group had access to a device
    pub time: Vec<BlkioDeviceStat>,
    /// Number of sectors transferred to or from a device
    pub sectors: Vec<BlkioDeviceStat>,
    /// Total time between request dispatch and request completion
    pub service_time: Vec<BlkioDeviceStat>,
    /// Total time spent waiting in the scheduler queues for service
    pub wait_time: Vec<BlkioDeviceStat>,
    /// Number of requests queued for I/O operations
    pub queued: Vec<BlkioDeviceStat>,
    /// Number of requests merged into requests for I/O operations
    pub merged: Vec<BlkioDeviceStat>,
}

impl BlkioStats {
    /// Nothing was collected: every number is zero, and what can be empty is
    /// empty.
    pub open spec fn is_empty(&self) -> bool {
        &&& self.service_bytes@ == Seq::<BlkioDeviceStat>::empty()
        &&& self.serviced@ == Seq::<BlkioDeviceStat>::empty()
        &&& self.time@ == Seq::<BlkioDeviceStat>::empty()
        &&& self.sectors@ == Seq::<BlkioDeviceStat>::empty()
        &&& self.service_time@ == Seq::<BlkioDeviceStat>::empty()
        &&& self.wait_time@ == Seq::<BlkioDeviceStat>::empty()
        &&& self.queued@ == Seq::<BlkioDeviceStat>::empty()
        &&& self.merged@ == Seq::<BlkioDeviceStat>::empty()
    }
}

impl Default for BlkioStats {
    fn default() -> (r: Self)
        ensures
            r.is_empty(),
    {
        Self {
            service_bytes: Vec::new(),
            serviced: Vec::new(),
            time: Vec::new(),
            sectors: Vec::new(),
            service_time: Vec::new(),
            wait_time: Vec::new(),
            queued: Vec::new(),
            merged: Vec::new(),
        }
    }
}

/// One value of one device.
#[derive(Debug, PartialEq, Eq, Clone)]
pub struct BlkioDeviceStat {
    /// Major device number
    pub major: u64,
    /// Minor device number
    pub minor: u64,
    /// Operation type; none on a row that sums over the operations
    pub op_type: Option<String>,
    /// Stat value
    pub value: u64,
}

impl BlkioDeviceStat {
    /// The row as text: major, a colon, minor, then the operation type where
    /// there is one, then the value, with one space between them.
    pub open spec fn display_spec(&self) -> Seq<char> {
        let device = decimal(self.major as nat) + seq![':'] + decimal(self.minor as nat) + seq![' '];
        match self.op_type {
            Some(op) => device + op@ + seq![' '] + decimal(self.value as nat),
            None => device + decimal(self.value as nat),
        }
    }

    /// The row as text.
    pub fn to_display_string(&self) -> (r: String)
        ensures
            r@ == self.display_spec(),
    {
        proof {
            reveal_strlit(":");
            reveal_strlit(" ");
        }
        let major = decimal_string(self.major);
        let minor = decimal_string(self.minor);
        let value = decimal_string(self.value);
        let device = major.concat(":").concat(minor.as_str()).concat(" ");
        let r = match &self.op_type {
            Some(op) => device.concat(op.as_str()).concat(" ").concat(value.as_str()),
            None => device.concat(value.as_str()),
        };
        assert(r@ =~= self.display_spec());
        r
    }
}

/// The hugetlb statistics of one page size.
#[derive(Debug, PartialEq, Eq)]
pub struct HugeTlbStats {
    /// Current usage in bytes
    pub usage: u64,
    /// Maximum recorded usage in bytes
    pub max_usage: u64,
    /// Number of allocations that failed because of the usage limit
    pub fail_count: u64,
}

impl HugeTlbStats {
    /// Nothing was collected: every number is zero, and what can be empty is
    /// empty.
    pub open spec fn is_empty(&self) -> bool {
        self.usage == 0 && self.max_usage == 0 && self.fail_count == 0
    }
}

impl Default for HugeTlbStats {
    fn default() -> (r: Self)
        ensures
            r.is_empty(),
    {
        Self { usage: 0, max_usage: 0, fail_count: 0 }
    }
}

/// What the single number in the file `name` of `dir` is: the number that
/// the trimmed content denotes; an I/O error where the file is missing; a
/// parse error with the path and the untrimmed content where the content
/// denotes no number.
pub open spec fn single_value_spec(dir: &CgroupDir, name: Seq<char>) -> Result<u64, StatsErrorView> {
    match dir.content_of(name) {
        None => Err(StatsErrorView::Io { path: dir.path_of(name) }),
        Some(content) => match parse_u64_spec(trim_spec(content)) {
            Some(value) => Ok(value),
            None => Err(StatsErrorView::Parse { path: dir.path_of(name), value: content }),
        },
    }
}

/// What the process limit of `dir` is: zero where the trimmed content of
/// `pids.max` is the word `max`, else as `single_value_spec` has it.
pub open spec fn pid_limit_spec(dir: &CgroupDir) -> Result<u64, StatsErrorView> {
    match dir.content_of(PIDS_MAX@) {
        Some(content) if trim_spec(content) == PIDS_UNLIMITED@ => Ok(0),
        _ => single_value_spec(dir, PIDS_MAX@),
    }
}

/// What the process counts of `dir` are. The first failure decides: that of
/// `pids.current` before that of `pids.max`.
pub open spec fn pid_stats_spec(dir: &CgroupDir) -> Result<PidStats, StatsErrorView> {
    match single_value_spec(dir, PIDS_CURRENT@) {
        Err(e) => Err(e),
        Ok(current) => match pid_limit_spec(dir) {
            Err(e) => Err(e),
            Ok(limit) => Ok(PidStats { current, limit }),
        },
    }
}

/// Reads the file `name` of `dir` as one unsigned 64-bit integer.
pub fn parse_single_value(dir: &CgroupDir, name: &str) -> (r: Result<u64, StatsError>)
    ensures
        outcome_is(r, single_value_spec(dir, name@)),
{
    match dir.read(name) {
        Err(e) => Err(e),
        Ok(content) => match parse_trimmed_u64(content.as_str()) {
            Some(value) => Ok(value),
            None => Err(
                StatsError::Parse {
                    path: join_path(dir.path.as_str(), name),
                    value: content.clone(),
                },
            ),
        },
    }
}

/// Collects the process counts of `dir` from `pids.current` and `pids.max`.
pub fn pid_stats(dir: &CgroupDir) -> (r: Result<PidStats, StatsError>)
    ensures
        outcome_is(r, pid_stats_spec(dir)),
{
    let mut stats = PidStats::default();
    match parse_single_value(dir, PIDS_CURRENT) {
        Err(e) => {
            return Err(e);
        },
        Ok(current) => {
            stats.current = current;
        },
    }
    match dir.read(PIDS_MAX) {
        Err(e) => Err(e),
        Ok(content) => {
            let v = chars_of(content.as_str());
            let (a, b) = trim_bounds(&v);
            let word = chars_of(PIDS_UNLIMITED);
            if b - a == word.len() && matches_at(&v, a, &word) {
                Ok(stats)
            } else {
                match parse_u64_range(&v, a, b) {
                    Some(limit) => {
                        stats.limit = limit;
                        Ok(stats)
                    },
                    None => Err(
                        StatsError::Parse {
                            path: join_path(dir.path.as_str(), PIDS_MAX),
                            value: content.clone(),
                        },
                    ),
                }
            }
        },
    }
}

/// The pids controller.
pub struct Pids;

impl StatsProvider for Pids {
    type Stats = PidStats;

    open spec fn collected(dir: &CgroupDir, outcome: Result<PidStats, StatsError>) -> bool {
        outcome_is(outcome, pid_stats_spec(dir))
    }

    fn stats(dir: &CgroupDir) -> (r: Result<PidStats, StatsError>) {
        pid_stats(dir)
    }
}

/// A file whose trimmed content is the numeral of `n` holds the value `n`.
pub proof fn lemma_single_value_of_numeral(dir: &CgroupDir, name: Seq<char>, n: u64)
    requires
        dir.content_of(name) is Some,
        trim_spec(dir.content_of(name)->Some_0) == decimal(n as nat),
    ensures
        single_value_spec(dir, name) == Ok::<u64, StatsErrorView>(n),
{
    lemma_parse_decimal(n);
}

/// Reading a single value twice from the same files gives the same outcome.
pub proof fn lemma_single_value_repeatable(
    dir: &CgroupDir,
    name: Seq<char>,
    first: Result<u64, StatsError>,
    second: Result<u64, StatsError>,
)
    requires
        outcome_is(first, single_value_spec(dir, name)),
        outcome_is(second, single_value_spec(dir, name)),
    ensures
        first is Ok <==> second is Ok,
        first is Ok ==> first->Ok_0 == second->Ok_0,
        first is Err ==> first->Err_0@ == second->Err_0@,
{
    lemma_same_outcome(first, second, single_value_spec(dir, name));
}

/// Without `pids.current` the process counts are an I/O error that holds
/// the file's path; so they are without `pids.max`, where `pids.current`
/// holds a number.
pub proof fn lemma_missing_pid_file_is_error(dir: &CgroupDir)
    ensures
        dir.content_of(PIDS_CURRENT@) is None ==> pid_stats_spec(dir) == Err::<
            PidStats,
            StatsErrorView,
        >(StatsErrorView::Io { path: dir.path_of(PIDS_CURRENT@) }),
        single_value_spec(dir, PIDS_CURRENT@) is Ok && dir.content_of(PIDS_MAX@) is None
            ==> pid_stats_spec(dir) == Err::<PidStats, StatsErrorView>(
            StatsErrorView::Io { path: dir.path_of(PIDS_MAX@) },
        ),
{
}

/// Collecting twice from the same files gives the same outcome: equal
/// counts, or errors with the same texts.
pub proof fn lemma_pid_stats_repeatable(
    dir: &CgroupDir,
    first: Result<PidStats, StatsError>,
    second: Result<PidStats, StatsError>,
)
    requires
        outcome_is(first, pid_stats_spec(dir)),
        outcome_is(second, pid_stats_spec(dir)),
    ensures
        first is Ok <==> second is Ok,
        first is Ok ==> first->Ok_0 == second->Ok_0,
        first is Err ==> first->Err_0@ == second->Err_0@,
{
    lemma_same_outcome(first, second, pid_stats_spec(dir));
}

} // verus!
