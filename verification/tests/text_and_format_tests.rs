use home_assist::model_format::{data_backup_path, MockRegressionLoss, SnapshotMirror, SNAPSHOT_FORMAT_VERSION};
use home_assist::calendar::format_clock;
use home_assist::text::{decimal_string, parse_unsigned_field};

#[test]
fn decimal_text() {
    assert_eq!(decimal_string(0), "0");
    assert_eq!(decimal_string(7), "7");
    assert_eq!(decimal_string(10), "10");
    assert_eq!(decimal_string(u64::MAX), u64::MAX.to_string());
}

#[test]
fn decimal_reads_back() {
    for n in [0u64, 5, 9, 10, 99, 100, 4096, 65535] {
        let s = decimal_string(n);
        assert_eq!(parse_unsigned_field(s.as_bytes(), 0, s.len(), 65535), Some(n));
    }
    let s = decimal_string(70000);
    assert_eq!(parse_unsigned_field(s.as_bytes(), 0, s.len(), 65535), None);
}

#[test]
fn unsigned_fields() {
    let b = b"x+12y0034";
    assert_eq!(parse_unsigned_field(b, 1, 4, 100), Some(12));
    assert_eq!(parse_unsigned_field(b, 5, 9, 100), Some(34));
    assert_eq!(parse_unsigned_field(b, 5, 9, 33), None);
    assert_eq!(parse_unsigned_field(b, 0, 4, 100), None);
    assert_eq!(parse_unsigned_field(b, 1, 2, 100), None);
    assert_eq!(parse_unsigned_field(b, 3, 3, 100), None);
    let big = b"18446744073709551615";
    assert_eq!(parse_unsigned_field(big, 0, big.len(), u64::MAX), Some(u64::MAX));
    let bigger = b"18446744073709551616";
    assert_eq!(parse_unsigned_field(bigger, 0, bigger.len(), u64::MAX), None);
}

#[test]
fn snapshot_envelope() {
    let s = SnapshotMirror::new(MockRegressionLoss::SquaredError);
    assert_eq!(s.format_version, 1);
    assert_eq!(SNAPSHOT_FORMAT_VERSION, 1);
    assert_eq!(s.model, MockRegressionLoss::SquaredError);
}

#[test]
fn backup_path() {
    assert_eq!(data_backup_path("model_data.bin"), "model_data.bin.bak");
    assert_eq!(data_backup_path(""), ".bak");
}

#[test]
fn zero_padded_reads_back() {
    for (h, m) in [(0u8, 0u8), (7, 5), (10, 59), (23, 9)] {
        let s = format_clock(h, m);
        assert_eq!(parse_unsigned_field(s.as_bytes(), 0, 2, 99), Some(h as u64));
        assert_eq!(parse_unsigned_field(s.as_bytes(), 3, 5, 99), Some(m as u64));
    }
}
