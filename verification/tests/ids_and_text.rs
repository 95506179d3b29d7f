use cdl::ids::{parse_uuid, parse_uuid_list, uuid_to_string, uuids_to_strings};
use cdl::text::{join_strings, u64_to_text};

const SAMPLE: u128 = 0x67e5504410b1426f9247bb680e5fe0c8;

#[test]
fn uuid_formats_hyphenated_lower_case() {
    assert_eq!(uuid_to_string(SAMPLE), "67e55044-10b1-426f-9247-bb680e5fe0c8");
    assert_eq!(uuid_to_string(0), "00000000-0000-0000-0000-000000000000");
    assert_eq!(uuid_to_string(u128::MAX), "ffffffff-ffff-ffff-ffff-ffffffffffff");
}

#[test]
fn uuid_parses_every_accepted_form() {
    assert_eq!(parse_uuid("67e55044-10b1-426f-9247-bb680e5fe0c8"), Some(SAMPLE));
    assert_eq!(parse_uuid("67E55044-10B1-426F-9247-BB680E5FE0C8"), Some(SAMPLE));
    assert_eq!(parse_uuid("67e5504410b1426f9247bb680e5fe0c8"), Some(SAMPLE));
    assert_eq!(parse_uuid("{67e55044-10b1-426f-9247-bb680e5fe0c8}"), Some(SAMPLE));
    assert_eq!(parse_uuid("urn:uuid:67e55044-10b1-426f-9247-bb680e5fe0c8"), Some(SAMPLE));
    assert_eq!(parse_uuid("URN:UUID:67e55044-10b1-426f-9247-bb680e5fe0c8"), Some(SAMPLE));
}

#[test]
fn uuid_rejects_malformed_texts() {
    assert_eq!(parse_uuid(""), None);
    assert_eq!(parse_uuid("67e55044-10b1-426f-9247-bb680e5fe0c"), None);
    assert_eq!(parse_uuid("67e55044x10b1-426f-9247-bb680e5fe0c8"), None);
    assert_eq!(parse_uuid("g7e55044-10b1-426f-9247-bb680e5fe0c8"), None);
    assert_eq!(parse_uuid("(67e55044-10b1-426f-9247-bb680e5fe0c8)"), None);
}

#[test]
fn uuid_text_round_trip() {
    for v in [0u128, 1, SAMPLE, u128::MAX, 0x0123456789abcdef0123456789abcdef] {
        assert_eq!(parse_uuid(&uuid_to_string(v)), Some(v));
    }
}

#[test]
fn uuid_list_reports_first_bad_index() {
    let good = uuid_to_string(SAMPLE);
    let list = vec![good.clone(), "bad".to_string(), "worse".to_string()];
    assert_eq!(parse_uuid_list(&list), Err(1));
    let list = vec![good.clone(), uuid_to_string(7)];
    assert_eq!(parse_uuid_list(&list), Ok(vec![SAMPLE, 7]));
    assert_eq!(parse_uuid_list(&vec![]), Ok(vec![]));
    assert_eq!(uuids_to_strings(&vec![SAMPLE, 7]), list);
}

#[test]
fn decimal_text_of_numbers() {
    assert_eq!(u64_to_text(0), "0");
    assert_eq!(u64_to_text(9), "9");
    assert_eq!(u64_to_text(10), "10");
    assert_eq!(u64_to_text(1625097600), "1625097600");
    assert_eq!(u64_to_text(u64::MAX), "18446744073709551615");
}

#[test]
fn join_puts_separator_between_neighbours() {
    assert_eq!(join_strings(&vec![], ","), "");
    assert_eq!(join_strings(&vec!["a".to_string()], ","), "a");
    assert_eq!(join_strings(&vec!["a".to_string(), "bc".to_string(), "".to_string()], ", "), "a, bc, ");
}
