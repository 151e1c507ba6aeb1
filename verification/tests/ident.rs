use kyefa::ident::id_text;
use kyefa::ident::parse_id;

#[test]
fn parse_id_reads_a_hyphenated_uuid() {
    assert_eq!(
        parse_id("a1a2a3a4-b1b2-c1c2-d1d2-d3d4d5d6d7d8"),
        Some(0xa1a2a3a4b1b2c1c2d1d2d3d4d5d6d7d8)
    );
    assert_eq!(parse_id("00000000-0000-0000-0000-000000000000"), Some(0));
}

#[test]
fn parse_id_reads_the_other_forms() {
    let id = Some(0x550e8400e29b41d4a716446655440000u128);
    assert_eq!(parse_id("550e8400e29b41d4a716446655440000"), id);
    assert_eq!(parse_id("550E8400-E29B-41D4-A716-446655440000"), id);
    assert_eq!(parse_id("urn:uuid:550e8400-e29b-41d4-a716-446655440000"), id);
    assert_eq!(parse_id("{550e8400-e29b-41d4-a716-446655440000}"), id);
}

#[test]
fn parse_id_turns_other_text_away() {
    assert_eq!(parse_id(""), None);
    assert_eq!(parse_id("admin"), None);
    assert_eq!(parse_id("550e8400-e29b-41d4-a716-44665544000"), None);
    assert_eq!(parse_id("550e8400-e29b-41d4-a716-44665544000g"), None);
}

#[test]
fn id_text_is_hyphenated_lower_case() {
    assert_eq!(
        id_text(0xa1a2a3a4b1b2c1c2d1d2d3d4d5d6d7d8),
        "a1a2a3a4-b1b2-c1c2-d1d2-d3d4d5d6d7d8"
    );
    assert_eq!(id_text(0), "00000000-0000-0000-0000-000000000000");
    assert_eq!(id_text(1), "00000000-0000-0000-0000-000000000001");
    assert_eq!(id_text(u128::MAX), "ffffffff-ffff-ffff-ffff-ffffffffffff");
    assert_eq!(
        id_text(0x0123456789abcdef0123456789abcdef),
        "01234567-89ab-cdef-0123-456789abcdef"
    );
}

#[test]
fn id_text_reads_back() {
    let ids = [0u128, 1, 42, 0xdeadbeef, u128::MAX, 0x550e8400e29b41d4a716446655440000];
    for id in ids {
        assert_eq!(parse_id(&id_text(id)), Some(id));
    }
}
