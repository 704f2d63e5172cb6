//! Scenario tests for the data-level protocol run.

use branch_ingest::protocol::{ingest, round_trip_upload};

fn stream(length: u32, identifier: &[u8], payload: &[u8]) -> Vec<u8> {
    let mut s = length.to_be_bytes().to_vec();
    s.extend_from_slice(identifier);
    s.extend_from_slice(payload);
    s
}

#[test]
fn full_upload_stores_decoded_report() {
    let out = ingest(&stream(5, b"ALBNM", b"~aGVsbG8=~"));
    assert!(out.completed);
    assert_eq!(out.acknowledgments, 2);
    assert_eq!(out.directory.as_deref(), Some("data/ALBNM"));
    let file = out.file.unwrap();
    assert_eq!(file.path, "data/ALBNM/branch_weekly_sales.txt");
    assert_eq!(file.content.as_slice(), b"hello");
}

#[test]
fn short_identifier_aborts_silently() {
    let out = ingest(&stream(4, b"AB", b""));
    assert!(!out.completed);
    assert_eq!(out.acknowledgments, 0);
    assert!(out.directory.is_none());
    assert!(out.file.is_none());
}

#[test]
fn short_length_field_aborts_silently() {
    let out = ingest(&vec![0u8, 0]);
    assert!(!out.completed);
    assert_eq!(out.acknowledgments, 0);
    assert!(out.directory.is_none());
    assert!(out.file.is_none());
}

#[test]
fn malformed_payload_aborts_after_first_ack() {
    let out = ingest(&stream(5, b"ALBNM", b"~!!!not-base64!!!~"));
    assert!(!out.completed);
    assert_eq!(out.acknowledgments, 1);
    assert_eq!(out.directory.as_deref(), Some("data/ALBNM"));
    assert!(out.file.is_none());
}

#[test]
fn zero_length_identifier_targets_data_directory() {
    let out = ingest(&stream(0, b"", b"~aGVsbG8=~"));
    assert!(out.completed);
    assert_eq!(out.acknowledgments, 2);
    assert_eq!(out.directory.as_deref(), Some("data/"));
    let file = out.file.unwrap();
    assert_eq!(file.path, "data//branch_weekly_sales.txt");
    assert_eq!(file.content.as_slice(), b"hello");
}

#[test]
fn bare_delimiters_decode_to_empty_report() {
    let out = ingest(&stream(1, b"A", b"~~"));
    assert!(out.completed);
    assert_eq!(out.acknowledgments, 2);
    let file = out.file.unwrap();
    assert_eq!(file.path, "data/A/branch_weekly_sales.txt");
    assert!(file.content.is_empty());
}

#[test]
fn repeated_upload_writes_the_same_file_again() {
    let s = stream(6, b"CTONGA", b"~c2FsZXM=~");
    let first = ingest(&s);
    let second = ingest(&s);
    let f1 = first.file.unwrap();
    let f2 = second.file.unwrap();
    assert_eq!(f1.path, f2.path);
    assert_eq!(f1.content, f2.content);
    assert_eq!(f2.content.as_slice(), b"sales");
}

#[test]
fn distinct_identifiers_use_distinct_paths() {
    let a = ingest(&stream(5, b"ALBNM", b"~YQ==~")).file.unwrap();
    let b = ingest(&stream(6, b"CTONGA", b"~Yg==~")).file.unwrap();
    assert_ne!(a.path, b.path);
    assert_eq!(a.content.as_slice(), b"a");
    assert_eq!(b.content.as_slice(), b"b");
}

#[test]
fn invalid_identifier_bytes_are_replaced_not_fatal() {
    let out = ingest(&stream(2, &[0xff, 0xfe], b"~~"));
    assert!(out.completed);
    assert_eq!(
        out.directory.as_deref(),
        Some(format!("data/{}{}", '\u{fffd}', '\u{fffd}').as_str())
    );
}

#[test]
fn round_trip_reproduces_arbitrary_bytes() {
    let report: Vec<u8> = vec![0, 159, 146, 150, 255, 1, 2, 3, 126, 61];
    let out = round_trip_upload(&b"ALBNM".to_vec(), &report);
    assert!(out.completed);
    assert_eq!(out.acknowledgments, 2);
    let file = out.file.unwrap();
    assert_eq!(file.path, "data/ALBNM/branch_weekly_sales.txt");
    assert_eq!(file.content, report);
}

#[test]
fn round_trip_of_empty_report() {
    let out = round_trip_upload(&b"A".to_vec(), &Vec::new());
    assert!(out.completed);
    let file = out.file.unwrap();
    assert!(file.content.is_empty());
}
