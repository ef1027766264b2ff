use haven_api::encoding::decode_base64;
use haven_api::ids::{parse_id, parse_optional_id};
use haven_api::text::{copy_optional, same_text};
use haven_api::time::{parse_timestamp, Timestamp, FRACTIONAL_UTC};

#[test]
fn base64_decodes_standard_alphabet_with_padding() {
    assert_eq!(decode_base64(""), Some(vec![]));
    assert_eq!(decode_base64("aGVsbG8="), Some(b"hello".to_vec()));
    assert_eq!(decode_base64("AAEC/f7/"), Some(vec![0, 1, 2, 0xfd, 0xfe, 0xff]));
    assert_eq!(decode_base64("+/+/"), Some(vec![0xfb, 0xff, 0xbf]));
}

#[test]
fn base64_rejects_what_the_engine_rejects() {
    assert_eq!(decode_base64("aGVsbG8"), None);
    assert_eq!(decode_base64("-_-_"), None);
    assert_eq!(decode_base64("aGVs bG8="), None);
    assert_eq!(decode_base64("aGVsbG9="), None);
    assert_eq!(decode_base64("="), None);
}

#[test]
fn identifiers_parse_in_every_format_of_the_crate() {
    let id = 0x550e8400_e29b_41d4_a716_446655440000u128;
    assert_eq!(parse_id("550e8400-e29b-41d4-a716-446655440000"), Some(id));
    assert_eq!(parse_id("550E8400-E29B-41D4-A716-446655440000"), Some(id));
    assert_eq!(parse_id("550e8400e29b41d4a716446655440000"), Some(id));
    assert_eq!(parse_id("{550e8400-e29b-41d4-a716-446655440000}"), Some(id));
    assert_eq!(parse_id("urn:uuid:550e8400-e29b-41d4-a716-446655440000"), Some(id));
    assert_eq!(parse_id("00000000-0000-0000-0000-000000000000"), Some(0));
    assert_eq!(parse_id("ffffffff-ffff-ffff-ffff-ffffffffffff"), Some(u128::MAX));
}

#[test]
fn identifiers_reject_other_texts() {
    assert_eq!(parse_id(""), None);
    assert_eq!(parse_id("550e8400-e29b-41d4-a716-44665544000"), None);
    assert_eq!(parse_id("550e8400-e29b-41d4-a716-44665544000g"), None);
    assert_eq!(parse_id(" 550e8400-e29b-41d4-a716-446655440000"), None);
    assert_eq!(parse_id("0x550e8400"), None);
}

#[test]
fn optional_identifiers_degrade() {
    assert_eq!(parse_optional_id(&None), None);
    assert_eq!(parse_optional_id(&Some("junk".to_string())), None);
    assert_eq!(
        parse_optional_id(&Some("00000000-0000-0000-0000-00000000002a".to_string())),
        Some(42)
    );
}

#[test]
fn timestamps_parse_as_rfc3339() {
    assert_eq!(parse_timestamp("1970-01-01T00:00:00Z"), Some(Timestamp { secs: 0, nanos: 0 }));
    assert_eq!(
        parse_timestamp("2024-02-29T12:00:00.5+00:00"),
        Some(Timestamp { secs: 1_709_208_000, nanos: 500_000_000 })
    );
    assert_eq!(
        parse_timestamp("2024-02-29T12:00:00-08:00"),
        Some(Timestamp { secs: 1_709_236_800, nanos: 0 })
    );
    assert_eq!(
        parse_timestamp("2024-02-29t12:00:00z"),
        Some(Timestamp { secs: 1_709_208_000, nanos: 0 })
    );
}

#[test]
fn timestamps_reject_other_texts() {
    assert_eq!(FRACTIONAL_UTC, "%Y-%m-%dT%H:%M:%S%.fZ");
    assert_eq!(parse_timestamp("2023-02-29T12:00:00Z"), None);
    assert_eq!(parse_timestamp("2024-02-29 12:00:00"), None);
    assert_eq!(parse_timestamp("2024-02-29T12:00:00"), None);
    assert_eq!(parse_timestamp("1709208000"), None);
    assert_eq!(parse_timestamp("2024-02-29T25:00:00Z"), None);
}

#[test]
fn text_helpers_compare_and_copy() {
    assert!(same_text("dm", "dm"));
    assert!(!same_text("dm", "DM"));
    assert!(!same_text("dm", "dm "));
    assert!(same_text("", ""));
    assert_eq!(copy_optional(&None), None);
    assert_eq!(copy_optional(&Some("x".to_string())), Some("x".to_string()));
}
