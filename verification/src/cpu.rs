//! The cpu controller's throttling counters.

use vstd::prelude::*;
use crate::error::outcome_is;
use crate::error::StatsError;
use crate::error::StatsErrorView;
use crate::files::join_path;
use crate::files::CgroupDir;
use crate::keyed::counters_view;
use crate::keyed::find_value;
use crate::keyed::keyed_spec;
use crate::keyed::parse_keyed;
use crate::keyed::value_of;
use crate::stats::CpuThrottling;

verus! {

/// The file of named counters that holds the throttling counters.
pub const CPU_STAT: &'static str = "cpu.stat";

/// The key of the number of periods that have elapsed.
pub const NR_PERIODS: &'static str = "nr_periods";

/// The key of the number of periods in which tasks were throttled.
pub const NR_THROTTLED: &'static str = "nr_throttled";

/// The key of the time for which tasks have been throttled.
pub const THROTTLED_TIME: &'static str = "throttled_time";

/// The three throttling counters among `pairs`, where all three are there.
pub open spec fn throttling_of(pairs: Seq<(Seq<char>, u64)>) -> Option<CpuThrottling> {
    match (
        value_of(pairs, NR_PERIODS@),
        value_of(pairs, NR_THROTTLED@),
        value_of(pairs, THROTTLED_TIME@),
    ) {
        (Some(periods), Some(throttled_periods), Some(throttled_time)) => Some(
            CpuThrottling { periods, throttled_periods, throttled_time },
        ),
        _ => None,
    }
}

/// The throttling counters of `dir`: an I/O error where `cpu.stat` is
/// missing; a parse error, with the path and the content, where a line
/// holds no counter or one of the three counters is not there.
pub open spec fn cpu_throttling_spec(dir: &CgroupDir) -> Result<CpuThrottling, StatsErrorView> {
    match dir.content_of(CPU_STAT@) {
        None => Err(StatsErrorView::Io { path: dir.path_of(CPU_STAT@) }),
        Some(content) => {
            let failed = StatsErrorView::Parse { path: dir.path_of(CPU_STAT@), value: content };
            match keyed_spec(content) {
                None => Err(failed),
                Some(pairs) => match throttling_of(pairs) {
                    Some(throttling) => Ok(throttling),
                    None => Err(failed),
                },
            }
        },
    }
}

/// The three throttling counters among `pairs`.
pub fn pick_throttling(pairs: &Vec<(String, u64)>) -> (r: Option<CpuThrottling>)
    ensures
        r == throttling_of(counters_view(pairs@)),
{
    let periods = match find_value(pairs, NR_PERIODS) {
        Some(v) => v,
        None => {
            return None;
        },
    };
    let throttled_periods = match find_value(pairs, NR_THROTTLED) {
        Some(v) => v,
        None => {
            return None;
        },
    };
    let throttled_time = match find_value(pairs, THROTTLED_TIME) {
        Some(v) => v,
        None => {
            return None;
        },
    };
    Some(CpuThrottling { periods, throttled_periods, throttled_time })
}

/// Collects the throttling counters of `dir` from `cpu.stat`.
pub fn cpu_throttling(dir: &CgroupDir) -> (r: Result<CpuThrottling, StatsError>)
    ensures
        outcome_is(r, cpu_throttling_spec(dir)),
{
    let content = match dir.read(CPU_STAT) {
        Ok(content) => content,
        Err(e) => {
            return Err(e);
        },
    };
    let found = match parse_keyed(content.as_str()) {
        Some(pairs) => pick_throttling(&pairs),
        None => None,
    };
    match found {
        Some(throttling) => Ok(throttling),
        None => Err(
            StatsError::Parse { path: join_path(dir.path.as_str(), CPU_STAT), value: content.clone() },
        ),
    }
}

} // verus!
