use redundinator::decimal::{decimal_text, parse_digits};
use redundinator::exports::{
    export_timestamp, exports_glob, latest_export_ts, parse_signed, parts_glob, signed_text,
};

fn paths(names: &[&str]) -> Vec<String> {
    names.iter().map(|n| String::from(*n)).collect()
}

#[test]
fn the_time_stamp_is_read_from_the_name() {
    assert_eq!(export_timestamp("/tmp/exports/host_1700000000.tar.zst.00"), Some(1700000000));
    assert_eq!(export_timestamp("host_1.tar.zst.0"), Some(1));
    assert_eq!(export_timestamp("my_host_2_1700000000.tar.zst.07"), Some(1700000000));
    assert_eq!(export_timestamp("host_0017.tar.zst.00"), Some(17));
}

#[test]
fn other_names_carry_no_time_stamp() {
    assert_eq!(export_timestamp(""), None);
    assert_eq!(export_timestamp("/tmp/exports/readme.txt"), None);
    assert_eq!(export_timestamp("host_1700000000.tar.zst"), None);
    assert_eq!(export_timestamp("host_1700000000.tar.zst."), None);
    assert_eq!(export_timestamp("host_1700000000.tar.zst.aa"), None);
    assert_eq!(export_timestamp("host1700000000.tar.zst.00"), None);
    assert_eq!(export_timestamp("host_.tar.zst.00"), None);
    assert_eq!(export_timestamp("host_1700000000.tar.zst.00\n"), None);
    assert_eq!(export_timestamp("host_1700000000.tar.zst.00.part"), None);
}

#[test]
fn a_time_stamp_out_of_range_is_passed_over() {
    assert_eq!(export_timestamp("host_9223372036854775807.tar.zst.00"), Some(i64::MAX));
    assert_eq!(export_timestamp("host_9223372036854775808.tar.zst.00"), None);
    assert_eq!(export_timestamp("host_99999999999999999999999.tar.zst.00"), None);
}

#[test]
fn the_dots_of_the_pattern_stand_for_any_character() {
    assert_eq!(export_timestamp("host_12xtarxzstx3"), Some(12));
    assert_eq!(export_timestamp("host_1234tar.zst.0"), Some(123));
}

#[test]
fn the_latest_export_is_found() {
    let found = latest_export_ts(&paths(&[
        "/e/host_1700000000.tar.zst.00",
        "/e/host_1700000000.tar.zst.01",
        "/e/notes.txt",
        "/e/host_1700000500.tar.zst.00",
        "/e/host_1600000000.tar.zst.00",
        "/e/host_99999999999999999999.tar.zst.00",
    ]));
    assert_eq!(found, Some(1700000500));
}

#[test]
fn no_export_gives_no_time_stamp() {
    assert_eq!(latest_export_ts(&paths(&[])), None);
    assert_eq!(latest_export_ts(&paths(&["/e/notes.txt", "/e/host.tar.zst.00"])), None);
    assert_eq!(latest_export_ts(&paths(&["/e/host_5.tar.zst.1"])), Some(5));
}

#[test]
fn signed_numbers_parse_as_i64_does() {
    for text in [
        "0", "-0", "+0", "17", "-17", "+17", "9223372036854775807", "9223372036854775808",
        "-9223372036854775808", "-9223372036854775809", "", "-", "+", "--1", "+-1", "1-", " 1",
        "18446744073709551616", "-18446744073709551616", "12a",
    ] {
        assert_eq!(parse_signed(text), text.parse::<i64>().ok(), "for {:?}", text);
    }
}

#[test]
fn signed_numbers_are_written_in_decimal() {
    for n in [0i64, 1, -1, 42, -42, i64::MAX, i64::MIN, 1700000000] {
        assert_eq!(signed_text(n), n.to_string());
    }
}

#[test]
fn numbers_are_read_from_a_position_on() {
    assert_eq!(parse_digits("ab123", 2), Some(123));
    assert_eq!(parse_digits("ab123", 5), None);
    assert_eq!(parse_digits("ab12c", 2), None);
    assert_eq!(parse_digits("18446744073709551615", 0), Some(u64::MAX));
    assert_eq!(parse_digits("18446744073709551616", 0), None);
    assert_eq!(decimal_text(0), "0");
    assert_eq!(decimal_text(1234567890), "1234567890");
}

#[test]
fn the_globs_name_the_files_of_a_source() {
    assert_eq!(exports_glob("/tmp/exports", "host"), "/tmp/exports/host_*.tar.zst.*");
    assert_eq!(
        parts_glob("/tmp/exports", "host", 1700000000),
        "/tmp/exports/host_1700000000.tar.zst.*"
    );
    assert_eq!(parts_glob("e", "h", -5), "e/h_-5.tar.zst.*");
}
