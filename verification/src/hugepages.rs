//! Which hugepage sizes the kernel supports, from the entries of the
//! directory in which it lists them.

use vstd::prelude::*;
use vstd::string::StringExecFns;
use crate::error::StatsError;
use crate::error::StatsErrorView;
use crate::files::join_path;
use crate::files::join_spec;
use crate::text::chars_of;
use crate::text::decimal;
use crate::text::decimal_string;
use crate::text::matches_at;
use crate::text::parse_u64_range;
use crate::text::parse_u64_spec;

verus! {

/// The directory in which the kernel lists one directory per supported
/// hugepage size.
pub const HUGEPAGES_DIR: &'static str = "/sys/kernel/mm/hugepages";

/// What the name of a size's directory starts with.
pub const SIZE_PREFIX: &'static str = "hugepages-";

/// What the name of a size's directory ends with.
pub const SIZE_SUFFIX: &'static str = "kB";

/// One entry of the hugepage directory.
#[derive(Debug, Clone, PartialEq, Eq)]
pub struct HugepageEntry {
    pub name: String,
    pub is_dir: bool,
}

/// What stands between prefix and suffix in `name`, where `name` has both,
/// one after the other.
pub open spec fn size_text(name: Seq<char>) -> Option<Seq<char>> {
    let p = SIZE_PREFIX@.len();
    let s = SIZE_SUFFIX@.len();
    if name.len() >= p + s && name.subrange(0, p as int) == SIZE_PREFIX@ && name.subrange(
        name.len() - s,
        name.len() as int,
    ) == SIZE_SUFFIX@ {
        Some(name.subrange(p as int, name.len() - s))
    } else {
        None
    }
}

/// The name of a page size of `size_kb` kilobytes: in whole gigabytes from
/// 2^20 kilobytes on, in whole megabytes from 2^10 on, else in kilobytes.
/// The division truncates.
pub open spec fn moniker_spec(size_kb: u64) -> Seq<char> {
    if size_kb >= 0x100000 {
        decimal((size_kb / 0x100000) as nat) + seq!['G', 'B']
    } else if size_kb >= 0x400 {
        decimal((size_kb / 0x400) as nat) + seq!['M', 'B']
    } else {
        decimal(size_kb as nat) + seq!['K', 'B']
    }
}

/// What one entry contributes: nothing where it is no directory or its name
/// has another form; the size's moniker; or a parse error, with the entry's
/// path and the text that denotes no size.
pub open spec fn entry_spec(entry: HugepageEntry) -> Option<Result<Seq<char>, StatsErrorView>> {
    if !entry.is_dir {
        None
    } else {
        match size_text(entry.name@) {
            None => None,
            Some(text) => match parse_u64_spec(text) {
                Some(size) => Some(Ok(moniker_spec(size))),
                None => Some(
                    Err(
                        StatsErrorView::Parse {
                            path: join_spec(HUGEPAGES_DIR@, entry.name@),
                            value: text,
                        },
                    ),
                ),
            },
        }
    }
}

/// The monikers of the supported page sizes, in the order of the entries,
/// or the error of the first entry that has one.
pub open spec fn page_sizes_spec(entries: Seq<HugepageEntry>) -> Result<
    Seq<Seq<char>>,
    StatsErrorView,
>
    decreases entries.len(),
{
    if entries.len() == 0 {
        Ok(Seq::empty())
    } else {
        match page_sizes_spec(entries.drop_last()) {
            Err(e) => Err(e),
            Ok(sizes) => match entry_spec(entries.last()) {
                None => Ok(sizes),
                Some(Ok(moniker)) => Ok(sizes.push(moniker)),
                Some(Err(e)) => Err(e),
            },
        }
    }
}

/// The texts of `v` as sequences of characters.
pub open spec fn texts(v: Seq<String>) -> Seq<Seq<char>> {
    v.map_values(|s: String| s@)
}

/// The name of a page size of `size_kb` kilobytes.
pub fn moniker(size_kb: u64) -> (r: String)
    ensures
        r@ == moniker_spec(size_kb),
{
    proof {
        reveal_strlit("GB");
        reveal_strlit("MB");
        reveal_strlit("KB");
    }
    let r = if size_kb >= 0x100000 {
        assert(size_kb >> 20 == size_kb / 0x100000) by (bit_vector);
        decimal_string(size_kb >> 20).concat("GB")
    } else if size_kb >= 0x400 {
        assert(size_kb >> 10 == size_kb / 0x400) by (bit_vector);
        decimal_string(size_kb >> 10).concat("MB")
    } else {
        decimal_string(size_kb).concat("KB")
    };
    assert(r@ =~= moniker_spec(size_kb));
    r
}

/// What one entry contributes.
pub fn entry_moniker(entry: &HugepageEntry) -> (r: Option<Result<String, StatsError>>)
    ensures
        match r {
            None => entry_spec(*entry) is None,
            Some(Ok(m)) => entry_spec(*entry) == Some(Ok::<Seq<char>, StatsErrorView>(m@)),
            Some(Err(e)) => entry_spec(*entry) == Some(Err::<Seq<char>, StatsErrorView>(e@)),
        },
{
    if !entry.is_dir {
        return None;
    }
    let name = chars_of(entry.name.as_str());
    let prefix = chars_of(SIZE_PREFIX);
    let suffix = chars_of(SIZE_SUFFIX);
    let n: usize = name.len();
    if n < prefix.len() || n - prefix.len() < suffix.len() {
        return None;
    }
    let end: usize = n - suffix.len();
    if !matches_at(&name, 0, &prefix) || !matches_at(&name, end, &suffix) {
        return None;
    }
    match parse_u64_range(&name, prefix.len(), end) {
        Some(size) => Some(Ok(moniker(size))),
        None => {
            let text = entry.name.as_str().substring_char(prefix.len(), end);
            Some(
                Err(
                    StatsError::Parse {
                        path: join_path(HUGEPAGES_DIR, entry.name.as_str()),
                        value: String::from_str(text),
                    },
                ),
            )
        },
    }
}

/// The monikers of the hugepage sizes that the kernel supports, given the
/// entries of its hugepage directory in the order in which they were listed.
pub fn supported_page_sizes(entries: &Vec<HugepageEntry>) -> (r: Result<Vec<String>, StatsError>)
    ensures
        page_sizes_are(r, entries@),
{
    let mut sizes: Vec<String> = Vec::new();
    let n: usize = entries.len();
    let mut i: usize = 0;
    assert(texts(sizes@) =~= Seq::<Seq<char>>::empty());
    while i < n
        invariant
            i <= n,
            n == entries.len(),
            page_sizes_spec(entries@.take(i as int)) == Ok::<Seq<Seq<char>>, StatsErrorView>(
                texts(sizes@),
            ),
        decreases n - i,
    {
        proof {
            assert(entries@.take(i + 1).drop_last() =~= entries@.take(i as int));
            assert(entries@.take(i + 1).last() == entries@[i as int]);
        }
        let ghost before = sizes@;
        match entry_moniker(&entries[i]) {
            None => {},
            Some(Ok(m)) => {
                sizes.push(m);
                assert(texts(sizes@) =~= texts(before).push(m@));
            },
            Some(Err(e)) => {
                proof {
                    lemma_error_stays(entries@, i + 1);
                }
                return Err(e);
            },
        }
        i += 1;
    }
    assert(entries@.take(n as int) =~= entries@);
    Ok(sizes)
}

/// Whether `outcome` is what the listing `entries` gives.
pub open spec fn page_sizes_are(
    outcome: Result<Vec<String>, StatsError>,
    entries: Seq<HugepageEntry>,
) -> bool {
    match outcome {
        Ok(sizes) => page_sizes_spec(entries) == Ok::<Seq<Seq<char>>, StatsErrorView>(
            texts(sizes@),
        ),
        Err(e) => page_sizes_spec(entries) == Err::<Seq<Seq<char>>, StatsErrorView>(e@),
    }
}

/// Discovering twice from the same listing gives the same outcome: the same
/// monikers in the same order, or errors with the same texts.
pub proof fn lemma_page_sizes_repeatable(
    entries: Seq<HugepageEntry>,
    first: Result<Vec<String>, StatsError>,
    second: Result<Vec<String>, StatsError>,
)
    requires
        page_sizes_are(first, entries),
        page_sizes_are(second, entries),
    ensures
        first is Ok <==> second is Ok,
        first is Ok ==> texts(first->Ok_0@) == texts(second->Ok_0@),
        first is Err ==> first->Err_0@ == second->Err_0@,
{
}

/// An error among the first `k` entries is the error of the whole listing.
pub proof fn lemma_error_stays(entries: Seq<HugepageEntry>, k: int)
    requires
        0 <= k <= entries.len(),
        page_sizes_spec(entries.take(k)) is Err,
    ensures
        page_sizes_spec(entries) == page_sizes_spec(entries.take(k)),
    decreases entries.len(),
{
    if k == entries.len() {
        assert(entries.take(k) =~= entries);
    } else {
        assert(entries.drop_last().take(k) =~= entries.take(k));
        lemma_error_stays(entries.drop_last(), k);
    }
}

/// An entry that is no directory, or whose name has not the form of a page
/// size, changes nothing, wherever it stands in the listing.
pub proof fn lemma_other_entries_ignored(entries: Seq<HugepageEntry>, at: int, entry: HugepageEntry)
    requires
        0 <= at <= entries.len(),
        !entry.is_dir || size_text(entry.name@) is None,
    ensures
        page_sizes_spec(entries.insert(at, entry)) == page_sizes_spec(entries),
    decreases entries.len(),
{
    let longer = entries.insert(at, entry);
    if at == entries.len() {
        assert(longer.drop_last() =~= entries);
    } else {
        assert(longer.drop_last() =~= entries.drop_last().insert(at, entry));
        assert(longer.last() == entries.last());
        lemma_other_entries_ignored(entries.drop_last(), at, entry);
    }
}

} // verus!
