//! Prefixed record identifiers: formatting, parsing, and the round trip.

use sql_grimoire_auth::ids::{
    id_to_string, parse_id, SEPARATOR_LENGTH, UUID_STRING_LENGTH,
};

const NIL_UUID: &str = "00000000-0000-0000-0000-000000000000";

#[test]
fn test_id() {
    const EXPECTED_STRING: &str = "test-00000000-0000-0000-0000-000000000000";
    assert_eq!(
        EXPECTED_STRING.len(),
        UUID_STRING_LENGTH + SEPARATOR_LENGTH + "test".len()
    );

    let formatted = id_to_string("test", NIL_UUID);
    assert_eq!(formatted, EXPECTED_STRING);
    assert_eq!(parse_id("test", EXPECTED_STRING).unwrap(), NIL_UUID);
}

#[test]
fn id_round_trip() {
    let uuid = "67e55044-10b1-426f-9247-bb680e5fe0c8";
    let s = id_to_string("ex_schema", uuid);
    assert_eq!(s, format!("ex_schema-{}", uuid));
    assert_eq!(parse_id("ex_schema", &s).unwrap(), uuid);
}

#[test]
fn parse_normalizes_the_uuid_spelling() {
    // an uppercase UUID part parses, and comes back canonical
    let s = format!("ex-{}", "67E55044-10B1-426F-9247-BB680E5FE0C8");
    assert_eq!(
        parse_id("ex", &s).unwrap(),
        "67e55044-10b1-426f-9247-bb680e5fe0c8"
    );
}

#[test]
fn parse_rejects_bad_shapes() {
    // wrong tag
    assert!(parse_id("ex", "us-67e55044-10b1-426f-9247-bb680e5fe0c8").is_none());
    // missing separator
    assert!(parse_id("ex", "ex67e55044-10b1-426f-9247-bb680e5fe0c8").is_none());
    // not a UUID after the tag
    assert!(parse_id("ex", "ex-not-a-uuid").is_none());
    // empty text
    assert!(parse_id("ex", "").is_none());
}
