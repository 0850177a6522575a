//! The hugetlb controller: three counters for each page size, each in a
//! file of its own.

use vstd::prelude::*;
use vstd::string::StringExecFns;
use crate::error::StatsError;
use crate::error::StatsErrorView;
use crate::files::CgroupDir;
use crate::stats::parse_single_value;
use crate::stats::single_value_spec;
use crate::stats::HugeTlbStats;

verus! {

/// What the name of every file of the controller starts with; the page
/// size's moniker follows.
pub const HUGETLB_PREFIX: &'static str = "hugetlb.";

/// What follows the moniker in the name of the file that holds the usage.
pub const HUGETLB_USAGE: &'static str = ".usage_in_bytes";

/// What follows the moniker in the name of the file that holds the highest
/// usage recorded.
pub const HUGETLB_MAX_USAGE: &'static str = ".max_usage_in_bytes";

/// What follows the moniker in the name of the file that counts the failed
/// allocations.
pub const HUGETLB_FAIL_COUNT: &'static str = ".failcnt";

/// The name of the file that holds one counter of one page size.
pub open spec fn counter_file_spec(moniker: Seq<char>, counter: Seq<char>) -> Seq<char> {
    HUGETLB_PREFIX@ + moniker + counter
}

/// The three counters of one page size, read in the order usage, highest
/// usage, failed allocations; the first failure decides.
pub open spec fn size_stats_spec(dir: &CgroupDir, moniker: Seq<char>) -> Result<
    HugeTlbStats,
    StatsErrorView,
> {
    match single_value_spec(dir, counter_file_spec(moniker, HUGETLB_USAGE@)) {
        Err(e) => Err(e),
        Ok(usage) => match single_value_spec(dir, counter_file_spec(moniker, HUGETLB_MAX_USAGE@)) {
            Err(e) => Err(e),
            Ok(max_usage) => match single_value_spec(
                dir,
                counter_file_spec(moniker, HUGETLB_FAIL_COUNT@),
            ) {
                Err(e) => Err(e),
                Ok(fail_count) => Ok(HugeTlbStats { usage, max_usage, fail_count }),
            },
        },
    }
}

/// The counters of each of `sizes`, in their order, each with its moniker.
/// A size that fails on a missing file is left out; a parse error is the
/// error of the whole, the first one where there are several.
pub open spec fn hugetlb_stats_spec(dir: &CgroupDir, sizes: Seq<Seq<char>>) -> Result<
    Seq<(Seq<char>, HugeTlbStats)>,
    StatsErrorView,
>
    decreases sizes.len(),
{
    if sizes.len() == 0 {
        Ok(Seq::empty())
    } else {
        match hugetlb_stats_spec(dir, sizes.drop_last()) {
            Err(e) => Err(e),
            Ok(done) => match size_stats_spec(dir, sizes.last()) {
                Ok(stats) => Ok(done.push((sizes.last(), stats))),
                Err(StatsErrorView::Io { .. }) => Ok(done),
                Err(e) => Err(e),
            },
        }
    }
}

/// Each moniker as a sequence of characters.
pub open spec fn sizes_view(sizes: Seq<String>) -> Seq<Seq<char>> {
    sizes.map_values(|s: String| s@)
}

/// Each pair with its moniker as a sequence of characters.
pub open spec fn pairs_view(pairs: Seq<(String, HugeTlbStats)>) -> Seq<(Seq<char>, HugeTlbStats)> {
    pairs.map_values(|p: (String, HugeTlbStats)| (p.0@, p.1))
}

/// The name of the file that holds one counter of one page size.
pub fn counter_file(moniker: &str, counter: &str) -> (r: String)
    ensures
        r@ == counter_file_spec(moniker@, counter@),
{
    String::from_str(HUGETLB_PREFIX).concat(moniker).concat(counter)
}

/// Reads the three counters of the page size `moniker`.
pub fn size_stats(dir: &CgroupDir, moniker: &str) -> (r: Result<HugeTlbStats, StatsError>)
    ensures
        match r {
            Ok(stats) => size_stats_spec(dir, moniker@) == Ok::<HugeTlbStats, StatsErrorView>(
                stats,
            ),
            Err(e) => size_stats_spec(dir, moniker@) == Err::<HugeTlbStats, StatsErrorView>(e@),
        },
{
    let usage = match parse_single_value(dir, counter_file(moniker, HUGETLB_USAGE).as_str()) {
        Ok(v) => v,
        Err(e) => {
            return Err(e);
        },
    };
    let max_usage = match parse_single_value(
        dir,
        counter_file(moniker, HUGETLB_MAX_USAGE).as_str(),
    ) {
        Ok(v) => v,
        Err(e) => {
            return Err(e);
        },
    };
    let fail_count = match parse_single_value(
        dir,
        counter_file(moniker, HUGETLB_FAIL_COUNT).as_str(),
    ) {
        Ok(v) => v,
        Err(e) => {
            return Err(e);
        },
    };
    Ok(HugeTlbStats { usage, max_usage, fail_count })
}

/// An error among the first `k` sizes is the error of the whole.
pub proof fn lemma_size_error_stays(dir: &CgroupDir, sizes: Seq<Seq<char>>, k: int)
    requires
        0 <= k <= sizes.len(),
        hugetlb_stats_spec(dir, sizes.take(k)) is Err,
    ensures
        hugetlb_stats_spec(dir, sizes) == hugetlb_stats_spec(dir, sizes.take(k)),
    decreases sizes.len(),
{
    if k == sizes.len() {
        assert(sizes.take(k) =~= sizes);
    } else {
        assert(sizes.drop_last().take(k) =~= sizes.take(k));
        lemma_size_error_stays(dir, sizes.drop_last(), k);
    }
}

/// Collects the hugetlb statistics of `dir` for the page sizes `sizes`.
pub fn hugetlb_stats(dir: &CgroupDir, sizes: &Vec<String>) -> (r: Result<
    Vec<(String, HugeTlbStats)>,
    StatsError,
>)
    ensures
        match r {
            Ok(pairs) => hugetlb_stats_spec(dir, sizes_view(sizes@)) == Ok::<
                Seq<(Seq<char>, HugeTlbStats)>,
                StatsErrorView,
            >(pairs_view(pairs@)),
            Err(e) => hugetlb_stats_spec(dir, sizes_view(sizes@)) == Err::<
                Seq<(Seq<char>, HugeTlbStats)>,
                StatsErrorView,
            >(e@),
        },
{
    let ghost all = sizes_view(sizes@);
    let mut pairs: Vec<(String, HugeTlbStats)> = Vec::new();
    let n: usize = sizes.len();
    let mut i: usize = 0;
    assert(pairs_view(pairs@) =~= Seq::<(Seq<char>, HugeTlbStats)>::empty());
    while i < n
        invariant
            i <= n,
            n == sizes.len(),
            all == sizes_view(sizes@),
            hugetlb_stats_spec(dir, all.take(i as int)) == Ok::<
                Seq<(Seq<char>, HugeTlbStats)>,
                StatsErrorView,
            >(pairs_view(pairs@)),
        decreases n - i,
    {
        proof {
            assert(all.take(i + 1).drop_last() =~= all.take(i as int));
            assert(all.take(i + 1).last() == sizes@[i as int]@);
        }
        match size_stats(dir, sizes[i].as_str()) {
            Ok(stats) => {
                let ghost before = pairs@;
                let size = sizes[i].clone();
                pairs.push((size, stats));
                assert(pairs_view(pairs@) =~= pairs_view(before).push((sizes@[i as int]@, stats)));
            },
            Err(StatsError::Io { path }) => {},
            Err(e) => {
                proof {
                    lemma_size_error_stays(dir, all, i + 1);
                }
                return Err(e);
            },
        }
        i += 1;
    }
    assert(all.take(n as int) =~= all);
    Ok(pairs)
}

/// A size of which a file is missing is left out, and is no error: with it
/// at the end of the sizes the outcome is that of the sizes before it.
pub proof fn lemma_missing_size_left_out(dir: &CgroupDir, sizes: Seq<Seq<char>>, moniker: Seq<char>)
    requires
        size_stats_spec(dir, moniker) is Err,
        size_stats_spec(dir, moniker)->Err_0 is Io,
    ensures
        hugetlb_stats_spec(dir, sizes.push(moniker)) == hugetlb_stats_spec(dir, sizes),
{
    assert(sizes.push(moniker).drop_last() =~= sizes);
}

} // verus!
