//! Tests for the wire framing pieces: the big-endian length field, the
//! delimiter stripping and wrapping, and the branch paths.

use branch_ingest::framing::{be32_bytes, be32_value, strip_delimiters, subvec, wrap_delimiters};
use branch_ingest::paths::{branch_directory, branch_report_file};

#[test]
fn be32_reads_big_endian() {
    assert_eq!(be32_value(0, 0, 0, 0), 0);
    assert_eq!(be32_value(0, 0, 1, 2), 258);
    assert_eq!(be32_value(0x12, 0x34, 0x56, 0x78), 0x1234_5678);
    assert_eq!(be32_value(0xff, 0xff, 0xff, 0xff), u32::MAX);
}

#[test]
fn be32_bytes_inverts_be32_value() {
    for n in [0u32, 1, 258, 0x1234_5678, u32::MAX] {
        let b = be32_bytes(n);
        assert_eq!(b, n.to_be_bytes().to_vec());
        assert_eq!(be32_value(b[0], b[1], b[2], b[3]), n);
    }
}

#[test]
fn strip_takes_one_delimiter_from_each_side() {
    assert_eq!(strip_delimiters(&b"~abc~".to_vec()), b"abc".to_vec());
    assert_eq!(strip_delimiters(&b"abc".to_vec()), b"abc".to_vec());
    assert_eq!(strip_delimiters(&b"~abc".to_vec()), b"abc".to_vec());
    assert_eq!(strip_delimiters(&b"abc~".to_vec()), b"abc".to_vec());
    assert_eq!(strip_delimiters(&b"~~abc~~".to_vec()), b"~abc~".to_vec());
    assert_eq!(strip_delimiters(&b"~~".to_vec()), b"".to_vec());
    assert_eq!(strip_delimiters(&b"~".to_vec()), b"".to_vec());
    assert_eq!(strip_delimiters(&b"".to_vec()), b"".to_vec());
}

#[test]
fn wrap_then_strip_is_identity() {
    for payload in [&b""[..], b"~", b"abc", b"~~", b"a~b"] {
        let wrapped = wrap_delimiters(&payload.to_vec());
        assert_eq!(wrapped.first(), Some(&b'~'));
        assert_eq!(wrapped.last(), Some(&b'~'));
        assert_eq!(strip_delimiters(&wrapped), payload.to_vec());
    }
}

#[test]
fn subvec_copies_the_given_range() {
    let v = b"abcdef".to_vec();
    assert_eq!(subvec(&v, 0, 6), v);
    assert_eq!(subvec(&v, 2, 4), b"cd".to_vec());
    assert_eq!(subvec(&v, 3, 3), b"".to_vec());
}

#[test]
fn branch_paths_are_rooted_under_data() {
    assert_eq!(branch_directory("ALBNM"), "data/ALBNM");
    assert_eq!(
        branch_report_file("ALBNM"),
        "data/ALBNM/branch_weekly_sales.txt"
    );
    assert_eq!(branch_directory(""), "data/");
    assert_eq!(branch_report_file(""), "data//branch_weekly_sales.txt");
}
