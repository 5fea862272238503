use stripe_core::error::StripeError;
use stripe_core::openapi::{parse, TypeData, TypeKeyword, TypeSourceKind};

#[test]
fn parse_reads_a_json_document() {
    let spec = parse("{\"openapi\": \"3.0.0\", \"paths\": {}}").unwrap();
    assert_eq!(spec["openapi"], "3.0.0");
    assert!(spec["paths"].is_object());
    assert_eq!(parse("[1, 2]").unwrap()[1], 2);
}

#[test]
fn parse_reports_what_is_no_json() {
    match parse("{\"openapi\": ") {
        Err(StripeError::Serialize(message)) => assert!(!message.is_empty()),
        _ => panic!("expected a report of the decoding"),
    }
    assert!(parse("").is_err());
    assert!(parse("{} {}").is_err());
}

#[test]
fn type_kinds_are_told_apart() {
    assert_ne!(TypeKeyword::Enum, TypeKeyword::Struct);
    assert_ne!(TypeSourceKind::Schema, TypeSourceKind::RequestParams);
    assert_eq!(TypeData::default(), TypeData {});
}
