//! Tests for process-enumeration parsing and status composition.

use svc::lifecycle::status_from_raw;
use svc::parse::parse_pids;

#[test]
fn mixed_valid_and_garbage_lines() {
    let out = parse_pids("1234\nNOTANUMBER\n5678\n");
    assert_eq!(out, vec![1234u64, 5678u64]);
}

#[test]
fn empty_output_has_no_pids() {
    let out = parse_pids("");
    assert!(out.is_empty());
}

#[test]
fn blank_lines_are_dropped() {
    let out = parse_pids("\n\n   \n");
    assert!(out.is_empty());
}

#[test]
fn whitespace_and_crlf_are_trimmed() {
    let out = parse_pids("  42 \r\n7\r\n");
    assert_eq!(out, vec![42u64, 7u64]);
}

#[test]
fn all_unicode_whitespace_is_trimmed() {
    // Exactly what `str::trim` would remove: form feed, vertical tab,
    // no-break space, ideographic space, ...
    let out = parse_pids("\u{c}42\n\u{b}7\u{a0}\n\u{3000}9\u{2028}\n");
    assert_eq!(out, vec![42u64, 7u64, 9u64]);
    // A whitespace character inside the digits still makes the line garbage.
    let out = parse_pids("4\u{c}2\n");
    assert!(out.is_empty());
}

#[test]
fn last_line_without_newline_counts() {
    let out = parse_pids("19\n23");
    assert_eq!(out, vec![19u64, 23u64]);
}

#[test]
fn value_too_large_for_u64_is_dropped() {
    let out = parse_pids("99999999999999999999999\n18446744073709551615\n");
    assert_eq!(out, vec![u64::MAX]);
}

#[test]
fn sign_characters_are_not_digits() {
    let out = parse_pids("+123\n-7\n");
    assert!(out.is_empty());
}

#[test]
fn digits_split_by_inner_space_are_garbage() {
    let out = parse_pids("12 34\n");
    assert!(out.is_empty());
}

#[test]
fn duplicate_pids_are_kept_in_order() {
    let out = parse_pids("5\n5\n3\n");
    assert_eq!(out, vec![5u64, 5u64, 3u64]);
}

#[test]
fn status_composes_both_queries() {
    let st = status_from_raw("1234\njunk\n", Some(0));
    assert_eq!(st.pids, vec![1234u64]);
    assert!(st.is_start_up);

    let st = status_from_raw("", Some(1));
    assert!(st.pids.is_empty());
    assert!(!st.is_start_up);

    let st = status_from_raw("8\n", None);
    assert_eq!(st.pids, vec![8u64]);
    assert!(!st.is_start_up);
}
