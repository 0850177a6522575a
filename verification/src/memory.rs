//! The memory controller: four counters for each kind of memory, each in a
//! file of its own, and the kernel's named counters.

use vstd::prelude::*;
use vstd::string::StringExecFns;
use crate::error::StatsError;
use crate::error::StatsErrorView;
use crate::files::join_path;
use crate::files::CgroupDir;
use crate::keyed::counters_view;
use crate::keyed::keyed_spec;
use crate::keyed::parse_keyed;
use crate::stats::parse_single_value;
use crate::stats::single_value_spec;
use crate::stats::MemoryData;

verus! {

/// What the names of the files on memory start with.
pub const MEMORY: &'static str = "memory";

/// What the names of the files on memory and swap start with.
pub const MEMORY_AND_SWAP: &'static str = "memory.memsw";

/// What the names of the files on kernel memory start with.
pub const MEMORY_KERNEL: &'static str = "memory.kmem";

/// What the names of the files on kernel tcp memory start with.
pub const MEMORY_KERNEL_TCP: &'static str = "memory.kmem.tcp";

/// What the name of the file that holds the usage ends with.
pub const MEMORY_USAGE: &'static str = ".usage_in_bytes";

/// What the name of the file that holds the highest usage recorded ends
/// with.
pub const MEMORY_MAX_USAGE: &'static str = ".max_usage_in_bytes";

/// What the name of the file that counts the times the limit was hit ends
/// with.
pub const MEMORY_FAIL_COUNT: &'static str = ".failcnt";

/// What the name of the file that holds the limit ends with.
pub const MEMORY_LIMIT: &'static str = ".limit_in_bytes";

/// The file of the kernel's named counters.
pub const MEMORY_STAT: &'static str = "memory.stat";

/// The four counters of the kind of memory whose files start with `kind`,
/// read in the order usage, highest usage, limit hits, limit; the first
/// failure decides. The limit is the number that the kernel reports, also
/// where that number stands for "no limit".
pub open spec fn memory_data_spec(dir: &CgroupDir, kind: Seq<char>) -> Result<
    MemoryData,
    StatsErrorView,
> {
    match single_value_spec(dir, kind + MEMORY_USAGE@) {
        Err(e) => Err(e),
        Ok(usage) => match single_value_spec(dir, kind + MEMORY_MAX_USAGE@) {
            Err(e) => Err(e),
            Ok(max_usage) => match single_value_spec(dir, kind + MEMORY_FAIL_COUNT@) {
                Err(e) => Err(e),
                Ok(fail_count) => match single_value_spec(dir, kind + MEMORY_LIMIT@) {
                    Err(e) => Err(e),
                    Ok(limit) => Ok(MemoryData { usage, max_usage, fail_count, limit }),
                },
            },
        },
    }
}

/// The kernel's named counters of `dir`, in the order of the lines of
/// `memory.stat`, each under its key as it stands there.
pub open spec fn memory_counters_spec(dir: &CgroupDir) -> Result<
    Seq<(Seq<char>, u64)>,
    StatsErrorView,
> {
    match dir.content_of(MEMORY_STAT@) {
        None => Err(StatsErrorView::Io { path: dir.path_of(MEMORY_STAT@) }),
        Some(content) => match keyed_spec(content) {
            Some(pairs) => Ok(pairs),
            None => Err(StatsErrorView::Parse { path: dir.path_of(MEMORY_STAT@), value: content }),
        },
    }
}

/// Reads one counter of one kind of memory.
fn read_counter(dir: &CgroupDir, kind: &str, ending: &str) -> (r: Result<u64, StatsError>)
    ensures
        match r {
            Ok(v) => single_value_spec(dir, kind@ + ending@) == Ok::<u64, StatsErrorView>(v),
            Err(e) => single_value_spec(dir, kind@ + ending@) == Err::<u64, StatsErrorView>(e@),
        },
{
    let name = String::from_str(kind).concat(ending);
    parse_single_value(dir, name.as_str())
}

/// Reads the four counters of the kind of memory whose files start with
/// `kind`.
pub fn memory_data(dir: &CgroupDir, kind: &str) -> (r: Result<MemoryData, StatsError>)
    ensures
        match r {
            Ok(data) => memory_data_spec(dir, kind@) == Ok::<MemoryData, StatsErrorView>(data),
            Err(e) => memory_data_spec(dir, kind@) == Err::<MemoryData, StatsErrorView>(e@),
        },
{
    let usage = match read_counter(dir, kind, MEMORY_USAGE) {
        Ok(v) => v,
        Err(e) => {
            return Err(e);
        },
    };
    let max_usage = match read_counter(dir, kind, MEMORY_MAX_USAGE) {
        Ok(v) => v,
        Err(e) => {
            return Err(e);
        },
    };
    let fail_count = match read_counter(dir, kind, MEMORY_FAIL_COUNT) {
        Ok(v) => v,
        Err(e) => {
            return Err(e);
        },
    };
    let limit = match read_counter(dir, kind, MEMORY_LIMIT) {
        Ok(v) => v,
        Err(e) => {
            return Err(e);
        },
    };
    Ok(MemoryData { usage, max_usage, fail_count, limit })
}

/// Reads the kernel's named counters of `dir` from `memory.stat`.
pub fn memory_counters(dir: &CgroupDir) -> (r: Result<Vec<(String, u64)>, StatsError>)
    ensures
        match r {
            Ok(pairs) => memory_counters_spec(dir) == Ok::<Seq<(Seq<char>, u64)>, StatsErrorView>(
                counters_view(pairs@),
            ),
            Err(e) => memory_counters_spec(dir) == Err::<Seq<(Seq<char>, u64)>, StatsErrorView>(
                e@,
            ),
        },
{
    match dir.read(MEMORY_STAT) {
        Err(e) => Err(e),
        Ok(content) => match parse_keyed(content.as_str()) {
            Some(pairs) => Ok(pairs),
            None => Err(
                StatsError::Parse {
                    path: join_path(dir.path.as_str(), MEMORY_STAT),
                    value: content.clone(),
                },
            ),
        },
    }
}

} // verus!
