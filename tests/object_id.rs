use rust_server::object_id::ObjectId;

#[test]
fn parses_hex_text_of_either_case() {
    let a = ObjectId::parse_str("507f1f77bcf86cd799439011").unwrap();
    assert_eq!(
        a.bytes,
        [0x50, 0x7f, 0x1f, 0x77, 0xbc, 0xf8, 0x6c, 0xd7, 0x99, 0x43, 0x90, 0x11]
    );
    let b = ObjectId::parse_str("507F1F77BCF86CD799439011").unwrap();
    assert_eq!(a, b);
}

#[test]
fn rejects_malformed_identifiers() {
    assert!(ObjectId::parse_str("not-an-id").is_none());
    assert!(ObjectId::parse_str("").is_none());
    assert!(ObjectId::parse_str("507f1f77bcf86cd79943901").is_none());
    assert!(ObjectId::parse_str("507f1f77bcf86cd7994390111").is_none());
    assert!(ObjectId::parse_str("507f1f77bcf86cd79943901g").is_none());
}

#[test]
fn hex_text_is_lower_case_and_round_trips() {
    let id = ObjectId { bytes: [0, 1, 2, 3, 0xab, 0xcd, 0xef, 0x10, 0x20, 0x30, 0xfe, 0xff] };
    let text = id.to_hex();
    assert_eq!(text, "00010203abcdef102030feff");
    assert_eq!(ObjectId::parse_str(&text), Some(id));
}
