use gd_backend::uuid_text::{canonical_uuid, parse_uuid, uuid_to_string};

const CANON: &str = "550e8400-e29b-41d4-a716-446655440000";

#[test]
fn uuid_forms_that_parse() {
    for text in [
        "550e8400-e29b-41d4-a716-446655440000",
        "550E8400-E29B-41D4-A716-446655440000",
        "550e8400e29b41d4a716446655440000",
        "{550e8400-e29b-41d4-a716-446655440000}",
        "urn:uuid:550e8400-e29b-41d4-a716-446655440000",
        "URN:UUID:550e8400-e29b-41d4-a716-446655440000",
    ] {
        assert_eq!(canonical_uuid(text).as_deref(), Some(CANON), "{}", text);
    }
}

#[test]
fn uuid_texts_that_do_not_parse() {
    for text in [
        "",
        "xyz",
        "550e8400-e29b-41d4-a716-44665544000",
        "550e8400-e29b-41d4-a716-4466554400000",
        "550e8400-e29b-41d4-a716_446655440000",
        "550e8400-e29b-41d4-a716-44665544000g",
        "[550e8400-e29b-41d4-a716-446655440000]",
        "urn:uuid-550e8400-e29b-41d4-a716-446655440000",
    ] {
        assert_eq!(canonical_uuid(text), None, "{}", text);
        assert_eq!(parse_uuid(text), None, "{}", text);
    }
}

#[test]
fn uuid_bytes_of_a_text() {
    let b = parse_uuid(CANON).unwrap();
    assert_eq!(b[0], 0x55);
    assert_eq!(b[15], 0x00);
    assert_eq!(b[6], 0x41);
}

#[test]
fn uuid_display_parses_back() {
    let b: [u8; 16] = [0, 1, 2, 3, 0xab, 0xcd, 0xef, 0x10, 0x99, 0x88, 0xff, 0xfe, 0x7a, 0x5b, 0x3c, 0x0d];
    let t = uuid_to_string(&b);
    assert_eq!(t, "00010203-abcd-ef10-9988-fffe7a5b3c0d");
    assert_eq!(parse_uuid(&t), Some(b));
    assert_eq!(canonical_uuid(&t).as_deref(), Some(t.as_str()));
}
