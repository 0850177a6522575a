use cgroup_stats::blkio::blkio_stats;
use cgroup_stats::blkio::device_stats;
use cgroup_stats::blkio::parse_device;
use cgroup_stats::blkio::parse_row;
use cgroup_stats::blkio::parse_table;
use cgroup_stats::blkio::Blkio;
use cgroup_stats::blkio::BLKIO_MERGED;
use cgroup_stats::blkio::BLKIO_SECTORS;
use cgroup_stats::blkio::BLKIO_SERVICED;
use cgroup_stats::blkio::BLKIO_SERVICE_BYTES;
use cgroup_stats::blkio::BLKIO_TIME;
use cgroup_stats::error::StatsError;
use cgroup_stats::files::CgroupDir;
use cgroup_stats::stats::BlkioDeviceStat;
use cgroup_stats::stats::BlkioStats;
use cgroup_stats::stats::StatsProvider;
use cgroup_stats::text::chars_of;
use cgroup_stats::text::find_colon;
use cgroup_stats::text::split;
use cgroup_stats::text::string_of;

fn row(major: u64, minor: u64, op: Option<&str>, value: u64) -> BlkioDeviceStat {
    BlkioDeviceStat { major, minor, op_type: op.map(|o| o.to_string()), value }
}

fn blkio_dir(files: &[(&str, &str)]) -> CgroupDir {
    let mut dir = CgroupDir::new("/sys/fs/cgroup/blkio/box");
    for (name, content) in files {
        dir.add_file(name, content);
    }
    dir
}

fn pieces(text: &str, lines: bool) -> Vec<String> {
    split(&chars_of(text), lines).iter().map(string_of).collect()
}

#[test]
fn split_into_lines_drops_empty_ones() {
    assert_eq!(pieces("a b\n\nc\n", true), vec!["a b".to_string(), "c".to_string()]);
    assert_eq!(pieces("a\r\nb", true), vec!["a\r".to_string(), "b".to_string()]);
    assert_eq!(pieces("", true), Vec::<String>::new());
    assert_eq!(pieces("\n\n", true), Vec::<String>::new());
    assert_eq!(pieces(" ", true), vec![" ".to_string()]);
}

#[test]
fn split_into_fields_agrees_with_std() {
    let inputs = ["8:0 Read 1024", "  8:0\t\tRead  1024 \r", "", "   ", "one", "a\u{3000}b\nc"];
    for s in inputs {
        let expected: Vec<String> = s.split_whitespace().map(|f| f.to_string()).collect();
        assert_eq!(pieces(s, false), expected, "input {:?}", s);
    }
}

#[test]
fn string_of_spells_the_characters() {
    assert_eq!(string_of(&vec!['R', 'e', 'a', 'd']), "Read");
    assert_eq!(string_of(&Vec::new()), "");
    assert_eq!(string_of(&chars_of("s\u{fc}\u{df}")), "s\u{fc}\u{df}");
}

#[test]
fn find_colon_gives_first_or_length() {
    assert_eq!(find_colon(&chars_of("8:0")), 1);
    assert_eq!(find_colon(&chars_of(":8:0")), 0);
    assert_eq!(find_colon(&chars_of("253:17:1")), 3);
    assert_eq!(find_colon(&chars_of("Total")), 5);
    assert_eq!(find_colon(&chars_of("")), 0);
}

#[test]
fn parse_device_numbers() {
    assert_eq!(parse_device(&chars_of("8:0")), Some((8, 0)));
    assert_eq!(parse_device(&chars_of("253:17")), Some((253, 17)));
    assert_eq!(parse_device(&chars_of("8")), None);
    assert_eq!(parse_device(&chars_of("8:")), None);
    assert_eq!(parse_device(&chars_of(":0")), None);
    assert_eq!(parse_device(&chars_of("8:0:1")), None);
    assert_eq!(parse_device(&chars_of("a:b")), None);
    assert_eq!(parse_device(&chars_of("")), None);
}

#[test]
fn parse_row_with_and_without_operation() {
    let with_op = split(&chars_of("8:0 Read 1024"), false);
    assert_eq!(parse_row(&with_op), Some(row(8, 0, Some("Read"), 1024)));
    let without_op = split(&chars_of("8:16 2048"), false);
    assert_eq!(parse_row(&without_op), Some(row(8, 16, None, 2048)));
}

#[test]
fn parse_row_rejects_other_shapes() {
    for line in ["8:0", "8:0 Read 1024 extra", "Total 3072", "8:0 Read many", "8:0 Read -1", ""] {
        assert_eq!(parse_row(&split(&chars_of(line), false)), None, "line {:?}", line);
    }
}

#[test]
fn parse_table_keeps_row_order() {
    let content = "8:0 Read 1024\n8:0 Write 2048\n\n8:16 Read 7\n";
    assert_eq!(
        parse_table(content),
        Some(vec![
            row(8, 0, Some("Read"), 1024),
            row(8, 0, Some("Write"), 2048),
            row(8, 16, Some("Read"), 7),
        ])
    );
}

#[test]
fn parse_table_of_empty_content_is_empty() {
    assert_eq!(parse_table(""), Some(Vec::new()));
    assert_eq!(parse_table("\n \n\t\n"), Some(Vec::new()));
}

#[test]
fn parse_table_fails_on_one_bad_line() {
    assert_eq!(parse_table("8:0 Read 1024\nnonsense\n8:0 Write 1\n"), None);
    assert_eq!(parse_table("8:0 18446744073709551616\n"), None);
}

#[test]
fn rows_display_as_they_were_read() {
    let content = "8:0 Read 1024\n8:0 2048\n";
    let rows = parse_table(content).unwrap();
    let shown: Vec<String> = rows.iter().map(|r| r.to_display_string()).collect();
    assert_eq!(shown, vec!["8:0 Read 1024".to_string(), "8:0 2048".to_string()]);
}

#[test]
fn device_stats_of_missing_file_is_empty() {
    let dir = blkio_dir(&[]);
    assert_eq!(device_stats(&dir, BLKIO_TIME), Ok(Vec::new()));
}

#[test]
fn device_stats_parse_error_holds_path_and_content() {
    let dir = blkio_dir(&[("blkio.time", "8:0 soon\n")]);
    assert_eq!(
        device_stats(&dir, BLKIO_TIME),
        Err(StatsError::Parse {
            path: "/sys/fs/cgroup/blkio/box/blkio.time".to_string(),
            value: "8:0 soon\n".to_string(),
        })
    );
}

#[test]
fn blkio_stats_with_every_file_missing() {
    let stats = blkio_stats(&blkio_dir(&[])).unwrap();
    assert_eq!(stats, BlkioStats::default());
}

#[test]
fn blkio_stats_with_some_files_missing() {
    let dir = blkio_dir(&[
        ("blkio.throttle.io_service_bytes", "8:0 Read 1024\n8:0 Write 2048\n"),
        ("blkio.sectors", "8:0 12\n"),
    ]);
    let stats = blkio_stats(&dir).unwrap();
    assert_eq!(
        stats.service_bytes,
        vec![row(8, 0, Some("Read"), 1024), row(8, 0, Some("Write"), 2048)]
    );
    assert_eq!(stats.sectors, vec![row(8, 0, None, 12)]);
    assert!(stats.serviced.is_empty());
    assert!(stats.time.is_empty());
    assert!(stats.service_time.is_empty());
    assert!(stats.wait_time.is_empty());
    assert!(stats.queued.is_empty());
    assert!(stats.merged.is_empty());
}

#[test]
fn blkio_stats_puts_each_kind_in_its_field() {
    let dir = blkio_dir(&[
        ("blkio.throttle.io_service_bytes", "1:0 1\n"),
        ("blkio.throttle.io_serviced", "2:0 2\n"),
        ("blkio.time", "3:0 3\n"),
        ("blkio.sectors", "4:0 4\n"),
        ("blkio.io_service_time", "5:0 5\n"),
        ("blkio.io_wait_time", "6:0 6\n"),
        ("blkio.io_queued", "7:0 7\n"),
        ("blkio.io_merged", "8:0 8\n"),
    ]);
    assert_eq!(
        blkio_stats(&dir),
        Ok(BlkioStats {
            service_bytes: vec![row(1, 0, None, 1)],
            serviced: vec![row(2, 0, None, 2)],
            time: vec![row(3, 0, None, 3)],
            sectors: vec![row(4, 0, None, 4)],
            service_time: vec![row(5, 0, None, 5)],
            wait_time: vec![row(6, 0, None, 6)],
            queued: vec![row(7, 0, None, 7)],
            merged: vec![row(8, 0, None, 8)],
        })
    );
}

#[test]
fn blkio_stats_fails_on_first_bad_kind() {
    let dir = blkio_dir(&[("blkio.io_merged", "bad\n"), ("blkio.throttle.io_serviced", "worse\n")]);
    assert_eq!(
        blkio_stats(&dir),
        Err(StatsError::Parse {
            path: "/sys/fs/cgroup/blkio/box/blkio.throttle.io_serviced".to_string(),
            value: "worse\n".to_string(),
        })
    );
}

#[test]
fn blkio_stats_twice_gives_equal_results() {
    let dir = blkio_dir(&[("blkio.time", "8:0 5\n")]);
    assert_eq!(blkio_stats(&dir), blkio_stats(&dir));
    assert_eq!(Blkio::stats(&dir), blkio_stats(&dir));
}

#[test]
fn file_names_of_the_blkio_controller() {
    assert_eq!(BLKIO_SERVICE_BYTES, "blkio.throttle.io_service_bytes");
    assert_eq!(BLKIO_SERVICED, "blkio.throttle.io_serviced");
    assert_eq!(BLKIO_SECTORS, "blkio.sectors");
    assert_eq!(BLKIO_MERGED, "blkio.io_merged");
}
