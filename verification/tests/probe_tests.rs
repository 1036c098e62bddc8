use oxide::root_probe::{euid_from_status, ps_output_has_uid_zero, tpgid_from_stat};
use oxide::strutil::{parse_i32, parse_u32, split_words};
use oxide::ui::format_mtime;

#[test]
fn parse_decimal_numbers_like_std() {
    assert_eq!(parse_u32("0"), Some(0));
    assert_eq!(parse_u32("+42"), Some(42));
    assert_eq!(parse_u32("4294967295"), Some(u32::MAX));
    assert_eq!(parse_u32("4294967296"), None);
    assert_eq!(parse_u32("-1"), None);
    assert_eq!(parse_u32(""), None);
    assert_eq!(parse_u32("+"), None);
    assert_eq!(parse_u32("12a"), None);
    assert_eq!(parse_u32(" 1"), None);
    assert_eq!(parse_i32("-2147483648"), Some(i32::MIN));
    assert_eq!(parse_i32("2147483647"), Some(i32::MAX));
    assert_eq!(parse_i32("2147483648"), None);
    assert_eq!(parse_i32("-0"), Some(0));
    assert_eq!(parse_i32("+7"), Some(7));
    assert_eq!(parse_i32("-"), None);
    for s in ["17", "+3", "-9", "x", "", "99999999999", "-2147483649"] {
        assert_eq!(parse_i32(s), s.parse::<i32>().ok());
        assert_eq!(parse_u32(s), s.parse::<u32>().ok());
    }
}

#[test]
fn words_split_on_white_space() {
    assert_eq!(split_words("  a bb\tc\n"), vec!["a", "bb", "c"]);
    assert_eq!(split_words(""), Vec::<String>::new());
    assert_eq!(split_words("   "), Vec::<String>::new());
    assert_eq!(split_words("x"), vec!["x"]);
}

#[test]
fn ps_output_with_root() {
    assert!(ps_output_has_uid_zero("  UID\n 1000\n    0\n"));
    assert!(!ps_output_has_uid_zero("UID\n1000\n501\n"));
    assert!(!ps_output_has_uid_zero(""));
    assert!(ps_output_has_uid_zero("0"));
}

#[test]
fn proc_status_effective_uid() {
    let status = "Name:\tbash\nState:\tS (sleeping)\nUid:\t1000\t0\t0\t0\nGid:\t1000\t1000\t1000\t1000\n";
    assert_eq!(euid_from_status(status), Some(0));
    assert_eq!(euid_from_status("Uid:\t1000\n"), None);
    assert_eq!(euid_from_status("Name: x\n"), None);
    assert_eq!(euid_from_status("Uid: 5 6\nUid: 7 8\n"), Some(6));
}

#[test]
fn proc_stat_foreground_group() {
    let stat = "4242 (my (odd) prog) S 1 4242 4242 34816 5001 4194560 0 0";
    assert_eq!(tpgid_from_stat(stat), Some(5001));
    assert_eq!(tpgid_from_stat("1 (init) S 0 1 1 0 -1 4194560"), None);
    assert_eq!(tpgid_from_stat("1 (init) S 0 1"), None);
    assert_eq!(tpgid_from_stat("no paren here"), None);
}

#[test]
fn modification_time_text() {
    assert_eq!(format_mtime(0).as_deref(), Some("Jan  1 1970 00:00"));
    assert_eq!(format_mtime(1431648000 + 13 * 3600 + 5 * 60 + 59).as_deref(), Some("May 15 2015 13:05"));
    assert_eq!(format_mtime(-60).as_deref(), Some("Dec 31 1969 23:59"));
    assert_eq!(format_mtime(i64::MAX), None);
}
