use gears::file_parser::{ParseBytesRequest, ParsedText};
use gears::ids::Uuid;
use gears::text::{decimal, join2, join3, same_ignoring_case, same_text};

#[test]
fn numbers_are_written_in_decimal() {
    for n in [0, 7, 9, 10, 42, 100, 1_000_000, u64::MAX] {
        assert_eq!(decimal(n), n.to_string());
    }
}

#[test]
fn texts_are_joined_and_compared() {
    assert_eq!(join2("a", "\u{e9}"), "a\u{e9}");
    assert_eq!(join3("a", "", "c"), "ac");
    assert!(same_text("", "") && same_text("\u{e9}x", "\u{e9}x"));
    assert!(!same_text("a", "ab") && !same_text("ab", "a") && !same_text("a", "A"));
    assert!(same_ignoring_case("Gts_Type", "gTS_tYPE"));
    assert!(!same_ignoring_case("\u{c9}", "\u{e9}") && !same_ignoring_case("a", "ab"));
}

#[test]
fn identifiers_are_written_as_the_uuid_crate_does() {
    for v in [0, 1, 0x0123_4567_89ab_cdef_fedc_ba98_7654_3210, u128::MAX] {
        let text = Uuid::from_u128(v).to_text();
        assert_eq!(text.len(), 36);
        assert_eq!(uuid::Uuid::parse_str(&text).unwrap().as_u128(), v);
    }
}

#[test]
fn files_and_texts_are_carried() {
    let request = ParseBytesRequest {
        filename: Some("a.pdf".to_owned()),
        content_type: None,
        bytes: vec![1, 2, 3],
    };
    assert_eq!(request.clone(), request);
    assert_eq!(ParsedText { markdown: "# A".to_owned() }.markdown, "# A");
}
