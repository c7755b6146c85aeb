use mp_core::ids::{
    encode, generate_short_id, generate_short_id_with_length, generate_uuid, shorten,
    uuid_from_string,
};

#[test]
fn test_generate_short_id() {
    let id1 = generate_short_id();
    let id2 = generate_short_id();

    // IDs should be different
    assert_ne!(id1, id2);

    // Should only contain valid base36 characters
    for c in id1.chars() {
        assert!(c.is_ascii_alphanumeric());
    }
}

#[test]
fn test_generate_short_id_with_length() {
    let id = generate_short_id_with_length(8);
    assert!(id.len() <= 8);
}

#[test]
fn test_generate_uuid() {
    let uuid1 = generate_uuid();
    let uuid2 = generate_uuid();

    // UUIDs should be different
    assert_ne!(uuid1, uuid2);

    // Should be valid v4 UUIDs
    assert_eq!(uuid1.get_version(), Some(uuid::Version::Random));
    assert_eq!(uuid2.get_version(), Some(uuid::Version::Random));
}

#[test]
fn test_uuid_from_string() {
    let uuid_str = "550e8400-e29b-41d4-a716-446655440000";
    let uuid = uuid_from_string(uuid_str).unwrap();
    assert_eq!(uuid.to_string(), uuid_str);
}

#[test]
fn test_uuid_from_invalid_string() {
    let result = uuid_from_string("invalid-uuid");
    assert!(result.is_err());
}

#[test]
fn encode_writes_base_36() {
    assert_eq!(encode(0), "0");
    assert_eq!(encode(9), "9");
    assert_eq!(encode(10), "a");
    assert_eq!(encode(35), "z");
    assert_eq!(encode(36), "10");
    assert_eq!(encode(71), "1z");
    assert_eq!(encode(1295), "zz");
    assert_eq!(encode(1296), "100");
    assert_eq!(encode(123456789), "21i3v9");
    assert_eq!(encode(u64::MAX), "3w5e11264sgsf");
}

#[test]
fn encode_reads_back() {
    for n in [0u64, 1, 35, 36, 1000, 46655, 46656, u64::MAX / 3, u64::MAX] {
        assert_eq!(u64::from_str_radix(&encode(n), 36).unwrap(), n);
    }
}

#[test]
fn shorten_cuts_only_longer_ids() {
    assert_eq!(shorten("abcdef".to_string(), 3), "abc");
    assert_eq!(shorten("abcdef".to_string(), 6), "abcdef");
    assert_eq!(shorten("abcdef".to_string(), 7), "abcdef");
    assert_eq!(shorten("abcdef".to_string(), 0), "");
    assert_eq!(shorten(String::new(), 2), "");
}

#[test]
fn short_ids_are_short_and_lower_case() {
    for _ in 0..50 {
        let id = generate_short_id();
        assert!(!id.is_empty() && id.len() <= 13);
        assert!(id.chars().all(|c| c.is_ascii_digit() || c.is_ascii_lowercase()));
    }
    assert_eq!(generate_short_id_with_length(0), "");
    assert!(generate_short_id_with_length(100).len() <= 13);
    assert_eq!(generate_short_id_with_length(1).len(), 1);
}

#[test]
fn uuid_from_string_reads_other_forms() {
    let hyphenated = uuid_from_string("550e8400-e29b-41d4-a716-446655440000").unwrap();
    let simple = uuid_from_string("550e8400e29b41d4a716446655440000").unwrap();
    assert_eq!(hyphenated, simple);
    assert_eq!(hyphenated.as_u128(), 0x550e8400_e29b_41d4_a716_446655440000);
    assert!(uuid_from_string("").is_err());
    assert!(uuid_from_string("550e8400-e29b-41d4-a716-44665544000g").is_err());
}

#[test]
fn generated_uuids_carry_version_and_variant() {
    for _ in 0..20 {
        let value = generate_uuid().as_u128();
        assert_eq!(
            value & 0x0000_0000_0000_f000_c000_0000_0000_0000,
            0x0000_0000_0000_4000_8000_0000_0000_0000
        );
    }
}
