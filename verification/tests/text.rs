use cgroup_stats::text::chars_of;
use cgroup_stats::text::decimal_string;
use cgroup_stats::text::is_whitespace;
use cgroup_stats::text::matches_at;
use cgroup_stats::text::parse_trimmed_u64;
use cgroup_stats::text::parse_u64;
use cgroup_stats::text::parse_u64_range;
use cgroup_stats::text::trim_bounds;

#[test]
fn parse_plain_number() {
    assert_eq!(parse_u64("12345"), Some(12345));
    assert_eq!(parse_u64("0"), Some(0));
    assert_eq!(parse_u64("007"), Some(7));
}

#[test]
fn parse_agrees_with_std() {
    let inputs = [
        "", "+", "-", "+5", "-5", "++5", "5+", " 5", "5 ", "12a", "a12", "1_000", "0x10", "٣",
        "18446744073709551615", "18446744073709551616", "99999999999999999999",
        "000000000000000000000000000001", "+18446744073709551615", "1.5",
    ];
    for s in inputs {
        assert_eq!(parse_u64(s), s.parse::<u64>().ok(), "input {:?}", s);
    }
}

#[test]
fn parse_accepts_plus_sign() {
    assert_eq!(parse_u64("+42"), Some(42));
    assert_eq!(parse_u64("+"), None);
}

#[test]
fn parse_rejects_what_does_not_fit() {
    assert_eq!(parse_u64("18446744073709551615"), Some(u64::MAX));
    assert_eq!(parse_u64("18446744073709551616"), None);
    assert_eq!(parse_u64("184467440737095516150"), None);
}

#[test]
fn parse_rejects_empty_and_signs() {
    assert_eq!(parse_u64(""), None);
    assert_eq!(parse_u64("-1"), None);
    assert_eq!(parse_u64("12 34"), None);
}

#[test]
fn parse_trimmed_drops_surrounding_whitespace() {
    assert_eq!(parse_trimmed_u64("12345\n"), Some(12345));
    assert_eq!(parse_trimmed_u64(" \t 9 \r\n"), Some(9));
    assert_eq!(parse_trimmed_u64("\u{a0}\u{3000}77\u{2003}"), Some(77));
    assert_eq!(parse_trimmed_u64("   "), None);
    assert_eq!(parse_trimmed_u64("1 2"), None);
}

#[test]
fn parse_trimmed_agrees_with_std() {
    let inputs = ["12345\n", "\n\n1\n", " +3 ", "\u{85}4\u{85}", "\u{200b}5", "x", " ", ""];
    for s in inputs {
        assert_eq!(parse_trimmed_u64(s), s.trim().parse::<u64>().ok(), "input {:?}", s);
    }
}

#[test]
fn parse_range_reads_only_the_range() {
    let v = chars_of("ab123cd");
    assert_eq!(parse_u64_range(&v, 2, 5), Some(123));
    assert_eq!(parse_u64_range(&v, 2, 6), None);
    assert_eq!(parse_u64_range(&v, 3, 3), None);
}

#[test]
fn whitespace_is_what_std_calls_whitespace() {
    let mut u: u32 = 0;
    while u <= 0x3100 {
        if let Some(c) = char::from_u32(u) {
            assert_eq!(is_whitespace(c), c.is_whitespace(), "char {:#x}", u);
        }
        u += 1;
    }
    assert!(!is_whitespace('\u{200b}'));
    assert!(!is_whitespace('\u{feff}'));
}

#[test]
fn trim_bounds_match_std_trim() {
    let inputs = ["", " ", "a", " a", "a ", "  a b  ", "\n\t x\u{2028}", "max\n"];
    for s in inputs {
        let v = chars_of(s);
        let (a, b) = trim_bounds(&v);
        let got: String = v[a..b].iter().collect();
        assert_eq!(got, s.trim(), "input {:?}", s);
    }
}

#[test]
fn chars_of_keeps_every_character() {
    assert_eq!(chars_of("a\u{e9}\u{1f600}z"), vec!['a', '\u{e9}', '\u{1f600}', 'z']);
    assert_eq!(chars_of(""), Vec::<char>::new());
}

#[test]
fn matches_at_compares_in_place() {
    let v = chars_of("hugepages-2048kB");
    assert!(matches_at(&v, 0, &chars_of("hugepages-")));
    assert!(matches_at(&v, 14, &chars_of("kB")));
    assert!(!matches_at(&v, 1, &chars_of("hugepages-")));
    assert!(matches_at(&v, 16, &chars_of("")));
}

#[test]
fn decimal_string_of_small_and_large() {
    assert_eq!(decimal_string(0), "0");
    assert_eq!(decimal_string(9), "9");
    assert_eq!(decimal_string(10), "10");
    assert_eq!(decimal_string(1024), "1024");
    assert_eq!(decimal_string(u64::MAX), "18446744073709551615");
}

#[test]
fn decimal_string_agrees_with_std() {
    let values = [0u64, 1, 9, 10, 11, 99, 100, 101, 65535, 1 << 20, 1 << 40, u64::MAX - 1];
    for n in values {
        assert_eq!(decimal_string(n), n.to_string());
    }
}

#[test]
fn parse_gives_back_what_was_rendered() {
    let values = [0u64, 5, 10, 4096, 1 << 33, u64::MAX];
    for n in values {
        assert_eq!(parse_u64(&decimal_string(n)), Some(n));
    }
}
