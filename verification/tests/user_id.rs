use fatum_api_rs::utils::user_id::UserId;

#[test]
fn user_id_is_written_hyphenated_in_lower_case() {
    let id = UserId::from_u128(0x550e8400_e29b_41d4_a716_446655440000);
    assert_eq!(id.to_hyphenated(), "550e8400-e29b-41d4-a716-446655440000");
    assert_eq!(id.as_u128(), 0x550e8400_e29b_41d4_a716_446655440000);
}

#[test]
fn zero_and_max_user_ids_are_written_in_full() {
    assert_eq!(UserId::from_u128(0).to_hyphenated(), "00000000-0000-0000-0000-000000000000");
    assert_eq!(UserId::from_u128(u128::MAX).to_hyphenated(), "ffffffff-ffff-ffff-ffff-ffffffffffff");
}

#[test]
fn hyphenated_user_id_parses_back() {
    let id = UserId::from_u128(0x0123456789abcdef_fedcba9876543210);
    let text = id.to_hyphenated();
    assert_eq!(UserId::parse(&text), Some(id));
}

#[test]
fn other_uuid_forms_parse_and_garbage_does_not() {
    let id = UserId::from_u128(0x550e8400_e29b_41d4_a716_446655440000);
    assert_eq!(UserId::parse("550e8400e29b41d4a716446655440000"), Some(id));
    assert_eq!(UserId::parse("550E8400-E29B-41D4-A716-446655440000"), Some(id));
    assert_eq!(UserId::parse("not a uuid"), None);
    assert_eq!(UserId::parse(""), None);
}
