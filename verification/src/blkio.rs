//! The blkio controller: one table of per-device values for each kind of
//! statistic, each in a file of its own.

use vstd::prelude::*;
use crate::error::StatsError;
use crate::error::StatsErrorView;
use crate::files::join_path;
use crate::files::CgroupDir;
use crate::stats::BlkioDeviceStat;
use crate::stats::BlkioStats;
use crate::stats::StatsProvider;
use crate::text::chars_of;
use crate::text::find_colon;
use crate::text::first_colon;
use crate::text::parse_u64_range;
use crate::text::parse_u64_spec;
use crate::text::pieces_view;
use crate::text::split;
use crate::text::split_spec;
use crate::text::string_of;

verus! {

/// Bytes transferred to or from each device.
pub const BLKIO_SERVICE_BYTES: &'static str = "blkio.throttle.io_service_bytes";

/// I/O operations performed on each device.
pub const BLKIO_SERVICED: &'static str = "blkio.throttle.io_serviced";

/// Time for which the group had access to each device.
pub const BLKIO_TIME: &'static str = "blkio.time";

/// Sectors transferred to or from each device.
pub const BLKIO_SECTORS: &'static str = "blkio.sectors";

/// Time between dispatch and completion of the requests.
pub const BLKIO_SERVICE_TIME: &'static str = "blkio.io_service_time";

/// Time that the requests waited in the scheduler queues.
pub const BLKIO_WAIT_TIME: &'static str = "blkio.io_wait_time";

/// Requests queued.
pub const BLKIO_QUEUED: &'static str = "blkio.io_queued";

/// Requests merged.
pub const BLKIO_MERGED: &'static str = "blkio.io_merged";

/// A [`BlkioDeviceStat`] with its operation type as a sequence of
/// characters.
pub struct DeviceStatView {
    pub major: u64,
    pub minor: u64,
    pub op_type: Option<Seq<char>>,
    pub value: u64,
}

impl View for BlkioDeviceStat {
    type V = DeviceStatView;

    open spec fn view(&self) -> DeviceStatView {
        DeviceStatView {
            major: self.major,
            minor: self.minor,
            op_type: match self.op_type {
                Some(op) => Some(op@),
                None => None,
            },
            value: self.value,
        }
    }
}

/// Each row by its view.
pub open spec fn rows_view(rows: Seq<BlkioDeviceStat>) -> Seq<DeviceStatView> {
    rows.map_values(|r: BlkioDeviceStat| r@)
}

/// A [`BlkioStats`] with each table by its view.
pub struct BlkioStatsView {
    pub service_bytes: Seq<DeviceStatView>,
    pub serviced: Seq<DeviceStatView>,
    pub time: Seq<DeviceStatView>,
    pub sectors: Seq<DeviceStatView>,
    pub service_time: Seq<DeviceStatView>,
    pub wait_time: Seq<DeviceStatView>,
    pub queued: Seq<DeviceStatView>,
    pub merged: Seq<DeviceStatView>,
}

impl View for BlkioStats {
    type V = BlkioStatsView;

    open spec fn view(&self) -> BlkioStatsView {
        BlkioStatsView {
            service_bytes: rows_view(self.service_bytes@),
            serviced: rows_view(self.serviced@),
            time: rows_view(self.time@),
            sectors: rows_view(self.sectors@),
            service_time: rows_view(self.service_time@),
            wait_time: rows_view(self.wait_time@),
            queued: rows_view(self.queued@),
            merged: rows_view(self.merged@),
        }
    }
}

/// The device that a field of the form `major:minor` names: a number on
/// each side of its first colon.
pub open spec fn device_spec(field: Seq<char>) -> Option<(u64, u64)> {
    let k = first_colon(field) as int;
    if k >= field.len() {
        None
    } else {
        match (parse_u64_spec(field.take(k)), parse_u64_spec(field.skip(k + 1))) {
            (Some(major), Some(minor)) => Some((major, minor)),
            _ => None,
        }
    }
}

/// The row that the fields of one line make: a device and a value, with an
/// operation type between them where there are three fields. Any other line
/// makes no row.
pub open spec fn row_spec(fields: Seq<Seq<char>>) -> Option<DeviceStatView> {
    if fields.len() == 2 || fields.len() == 3 {
        match (device_spec(fields[0]), parse_u64_spec(fields[fields.len() - 1])) {
            (Some(device), Some(value)) => Some(
                DeviceStatView {
                    major: device.0,
                    minor: device.1,
                    op_type: if fields.len() == 3 {
                        Some(fields[1])
                    } else {
                        None
                    },
                    value,
                },
            ),
            _ => None,
        }
    } else {
        None
    }
}

/// The rows of some lines, in order. A line without a field is passed over;
/// one line that makes no row leaves the whole without a result.
pub open spec fn rows_spec(lines: Seq<Seq<char>>) -> Option<Seq<DeviceStatView>>
    decreases lines.len(),
{
    if lines.len() == 0 {
        Some(Seq::empty())
    } else {
        match rows_spec(lines.drop_last()) {
            None => None,
            Some(rows) => {
                let fields = split_spec(lines.last(), false);
                if fields.len() == 0 {
                    Some(rows)
                } else {
                    match row_spec(fields) {
                        Some(row) => Some(rows.push(row)),
                        None => None,
                    }
                }
            },
        }
    }
}

/// The table that the content of a file holds.
pub open spec fn table_spec(content: Seq<char>) -> Option<Seq<DeviceStatView>> {
    rows_spec(split_spec(content, true))
}

/// The table of one kind: empty where its file `name` is missing; a parse
/// error, with the path and the content, where the content holds no table.
pub open spec fn kind_spec(dir: &CgroupDir, name: Seq<char>) -> Result<
    Seq<DeviceStatView>,
    StatsErrorView,
> {
    match dir.content_of(name) {
        None => Ok(Seq::empty()),
        Some(content) => match table_spec(content) {
            Some(rows) => Ok(rows),
            None => Err(StatsErrorView::Parse { path: dir.path_of(name), value: content }),
        },
    }
}

/// The tables of all kinds, or the error of the first kind that has one, in
/// the order of the fields of [`BlkioStats`].
pub open spec fn blkio_stats_spec(dir: &CgroupDir) -> Result<BlkioStatsView, StatsErrorView> {
    let service_bytes = kind_spec(dir, BLKIO_SERVICE_BYTES@);
    let serviced = kind_spec(dir, BLKIO_SERVICED@);
    let time = kind_spec(dir, BLKIO_TIME@);
    let sectors = kind_spec(dir, BLKIO_SECTORS@);
    let service_time = kind_spec(dir, BLKIO_SERVICE_TIME@);
    let wait_time = kind_spec(dir, BLKIO_WAIT_TIME@);
    let queued = kind_spec(dir, BLKIO_QUEUED@);
    let merged = kind_spec(dir, BLKIO_MERGED@);
    if service_bytes is Err {
        Err(service_bytes->Err_0)
    } else if serviced is Err {
        Err(serviced->Err_0)
    } else if time is Err {
        Err(time->Err_0)
    } else if sectors is Err {
        Err(sectors->Err_0)
    } else if service_time is Err {
        Err(service_time->Err_0)
    } else if wait_time is Err {
        Err(wait_time->Err_0)
    } else if queued is Err {
        Err(queued->Err_0)
    } else if merged is Err {
        Err(merged->Err_0)
    } else {
        Ok(
            BlkioStatsView {
                service_bytes: service_bytes->Ok_0,
                serviced: serviced->Ok_0,
                time: time->Ok_0,
                sectors: sectors->Ok_0,
                service_time: service_time->Ok_0,
                wait_time: wait_time->Ok_0,
                queued: queued->Ok_0,
                merged: merged->Ok_0,
            },
        )
    }
}

/// The device that a field of the form `major:minor` names.
pub fn parse_device(field: &Vec<char>) -> (r: Option<(u64, u64)>)
    ensures
        r == device_spec(field@),
{
    let k: usize = find_colon(field);
    if k >= field.len() {
        return None;
    }
    proof {
        assert(field@.take(k as int) =~= field@.subrange(0, k as int));
        assert(field@.skip(k + 1) =~= field@.subrange(k + 1, field.len() as int));
    }
    match parse_u64_range(field, 0, k) {
        None => None,
        Some(major) => match parse_u64_range(field, k + 1, field.len()) {
            None => None,
            Some(minor) => Some((major, minor)),
        },
    }
}

/// The row that the fields of one line make.
pub fn parse_row(fields: &Vec<Vec<char>>) -> (r: Option<BlkioDeviceStat>)
    ensures
        match r {
            Some(row) => row_spec(pieces_view(fields@)) == Some(row@),
            None => row_spec(pieces_view(fields@)) is None,
        },
{
    let n: usize = fields.len();
    if n != 2 && n != 3 {
        return None;
    }
    let last: &Vec<char> = &fields[n - 1];
    proof {
        assert(pieces_view(fields@)[0] == fields@[0]@);
        assert(pieces_view(fields@)[1] == fields@[1]@);
        assert(pieces_view(fields@)[n - 1] == last@);
        assert(last@.subrange(0, last.len() as int) =~= last@);
    }
    match parse_device(&fields[0]) {
        None => None,
        Some((major, minor)) => match parse_u64_range(last, 0, last.len()) {
            None => None,
            Some(value) => {
                let op_type = if n == 3 {
                    Some(string_of(&fields[1]))
                } else {
                    None
                };
                Some(BlkioDeviceStat { major, minor, op_type, value })
            },
        },
    }
}

/// Once some first lines make no table, no longer listing does.
pub proof fn lemma_bad_line_stays(lines: Seq<Seq<char>>, k: int)
    requires
        0 <= k <= lines.len(),
        rows_spec(lines.take(k)) is None,
    ensures
        rows_spec(lines) is None,
    decreases lines.len(),
{
    if k == lines.len() {
        assert(lines.take(k) =~= lines);
    } else {
        assert(lines.drop_last().take(k) =~= lines.take(k));
        lemma_bad_line_stays(lines.drop_last(), k);
    }
}

/// The table that `content` holds, if it holds one.
pub fn parse_table(content: &str) -> (r: Option<Vec<BlkioDeviceStat>>)
    ensures
        match r {
            Some(rows) => table_spec(content@) == Some(rows_view(rows@)),
            None => table_spec(content@) is None,
        },
{
    let chars = chars_of(content);
    let lines = split(&chars, true);
    let ghost all = pieces_view(lines@);
    let mut rows: Vec<BlkioDeviceStat> = Vec::new();
    let n: usize = lines.len();
    let mut i: usize = 0;
    assert(rows_view(rows@) =~= Seq::<DeviceStatView>::empty());
    while i < n
        invariant
            i <= n,
            n == lines.len(),
            all == pieces_view(lines@),
            all == split_spec(content@, true),
            rows_spec(all.take(i as int)) == Some(rows_view(rows@)),
        decreases n - i,
    {
        proof {
            assert(all.take(i + 1).drop_last() =~= all.take(i as int));
            assert(all.take(i + 1).last() == lines@[i as int]@);
        }
        let fields = split(&lines[i], false);
        if fields.len() > 0 {
            match parse_row(&fields) {
                Some(row) => {
                    let ghost before = rows@;
                    rows.push(row);
                    assert(rows_view(rows@) =~= rows_view(before).push(row@));
                },
                None => {
                    proof {
                        assert(pieces_view(fields@).len() == fields.len());
                        assert(rows_spec(all.take(i + 1)) is None);
                        lemma_bad_line_stays(all, i + 1);
                    }
                    return None;
                },
            }
        }
        i += 1;
    }
    assert(all.take(n as int) =~= all);
    Some(rows)
}

/// Reads the table of one kind from the file `name` of `dir`. A missing file
/// gives the empty table.
pub fn device_stats(dir: &CgroupDir, name: &str) -> (r: Result<Vec<BlkioDeviceStat>, StatsError>)
    ensures
        match r {
            Ok(rows) => kind_spec(dir, name@) == Ok::<Seq<DeviceStatView>, StatsErrorView>(
                rows_view(rows@),
            ),
            Err(e) => kind_spec(dir, name@) == Err::<Seq<DeviceStatView>, StatsErrorView>(e@),
        },
{
    match dir.read(name) {
        Err(_) => {
            let rows: Vec<BlkioDeviceStat> = Vec::new();
            assert(rows_view(rows@) =~= Seq::<DeviceStatView>::empty());
            Ok(rows)
        },
        Ok(content) => match parse_table(content.as_str()) {
            Some(rows) => Ok(rows),
            None => Err(
                StatsError::Parse {
                    path: join_path(dir.path.as_str(), name),
                    value: content.clone(),
                },
            ),
        },
    }
}

/// Collects the block io statistics of `dir`, one kind after the other.
pub fn blkio_stats(dir: &CgroupDir) -> (r: Result<BlkioStats, StatsError>)
    ensures
        match r {
            Ok(stats) => blkio_stats_spec(dir) == Ok::<BlkioStatsView, StatsErrorView>(stats@),
            Err(e) => blkio_stats_spec(dir) == Err::<BlkioStatsView, StatsErrorView>(e@),
        },
{
    let service_bytes = match device_stats(dir, BLKIO_SERVICE_BYTES) {
        Ok(rows) => rows,
        Err(e) => {
            return Err(e);
        },
    };
    let serviced = match device_stats(dir, BLKIO_SERVICED) {
        Ok(rows) => rows,
        Err(e) => {
            return Err(e);
        },
    };
    let time = match device_stats(dir, BLKIO_TIME) {
        Ok(rows) => rows,
        Err(e) => {
            return Err(e);
        },
    };
    let sectors = match device_stats(dir, BLKIO_SECTORS) {
        Ok(rows) => rows,
        Err(e) => {
            return Err(e);
        },
    };
    let service_time = match device_stats(dir, BLKIO_SERVICE_TIME) {
        Ok(rows) => rows,
        Err(e) => {
            return Err(e);
        },
    };
    let wait_time = match device_stats(dir, BLKIO_WAIT_TIME) {
        Ok(rows) => rows,
        Err(e) => {
            return Err(e);
        },
    };
    let queued = match device_stats(dir, BLKIO_QUEUED) {
        Ok(rows) => rows,
        Err(e) => {
            return Err(e);
        },
    };
    let merged = match device_stats(dir, BLKIO_MERGED) {
        Ok(rows) => rows,
        Err(e) => {
            return Err(e);
        },
    };
    Ok(
        BlkioStats {
            service_bytes,
            serviced,
            time,
            sectors,
            service_time,
            wait_time,
            queued,
            merged,
        },
    )
}

/// The blkio controller.
pub struct Blkio;

impl StatsProvider for Blkio {
    type Stats = BlkioStats;

    open spec fn collected(dir: &CgroupDir, outcome: Result<BlkioStats, StatsError>) -> bool {
        match outcome {
            Ok(stats) => blkio_stats_spec(dir) == Ok::<BlkioStatsView, StatsErrorView>(stats@),
            Err(e) => blkio_stats_spec(dir) == Err::<BlkioStatsView, StatsErrorView>(e@),
        }
    }

    fn stats(dir: &CgroupDir) -> (r: Result<BlkioStats, StatsError>) {
        blkio_stats(dir)
    }
}

/// Collecting twice from the same files gives the same outcome: tables with
/// the same rows, or errors with the same texts.
pub proof fn lemma_blkio_stats_repeatable(
    dir: &CgroupDir,
    first: Result<BlkioStats, StatsError>,
    second: Result<BlkioStats, StatsError>,
)
    requires
        Blkio::collected(dir, first),
        Blkio::collected(dir, second),
    ensures
        first is Ok <==> second is Ok,
        first is Ok ==> first->Ok_0@ == second->Ok_0@,
        first is Err ==> first->Err_0@ == second->Err_0@,
{
}

/// A kind whose file is missing has the empty table, and is no error.
pub proof fn lemma_missing_kind_is_empty(dir: &CgroupDir, name: Seq<char>)
    requires
        dir.content_of(name) is None,
    ensures
        kind_spec(dir, name) == Ok::<Seq<DeviceStatView>, StatsErrorView>(Seq::empty()),
{
}

/// The collection fails only where the file of some kind is there and holds
/// no table: missing files never make it fail.
pub proof fn lemma_blkio_fails_only_on_content(dir: &CgroupDir)
    requires
        blkio_stats_spec(dir) is Err,
    ensures
        exists|name: Seq<char>|
            dir.content_of(name) is Some && table_spec(dir.content_of(name)->Some_0) is None
                && blkio_stats_spec(dir) == Err::<BlkioStatsView, StatsErrorView>(
                StatsErrorView::Parse {
                    path: dir.path_of(name),
                    value: dir.content_of(name)->Some_0,
                },
            ),
{
    let bad = |name: Seq<char>|
        dir.content_of(name) is Some && table_spec(dir.content_of(name)->Some_0) is None
            && blkio_stats_spec(dir) == Err::<BlkioStatsView, StatsErrorView>(
            StatsErrorView::Parse { path: dir.path_of(name), value: dir.content_of(name)->Some_0 },
        );
    if kind_spec(dir, BLKIO_SERVICE_BYTES@) is Err {
        assert(bad(BLKIO_SERVICE_BYTES@));
    } else if kind_spec(dir, BLKIO_SERVICED@) is Err {
        assert(bad(BLKIO_SERVICED@));
    } else if kind_spec(dir, BLKIO_TIME@) is Err {
        assert(bad(BLKIO_TIME@));
    } else if kind_spec(dir, BLKIO_SECTORS@) is Err {
        assert(bad(BLKIO_SECTORS@));
    } else if kind_spec(dir, BLKIO_SERVICE_TIME@) is Err {
        assert(bad(BLKIO_SERVICE_TIME@));
    } else if kind_spec(dir, BLKIO_WAIT_TIME@) is Err {
        assert(bad(BLKIO_WAIT_TIME@));
    } else if kind_spec(dir, BLKIO_QUEUED@) is Err {
        assert(bad(BLKIO_QUEUED@));
    } else {
        assert(bad(BLKIO_MERGED@));
    }
}

} // verus!
