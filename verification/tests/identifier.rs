use test_support::identifier::generate_uuid;

const CHARSET: &str = "0123456789abcdefABCDEF";

#[test]
fn generated_id_is_32_chars_of_the_alphabet() {
    let id = generate_uuid();
    let s = id.as_str();
    assert_eq!(s.len(), 32);
    assert!(s.chars().all(|c| CHARSET.contains(c)));
}

#[test]
fn ten_thousand_ids_all_parse_as_uuids() {
    for _ in 0..10_000 {
        let id = generate_uuid();
        let parsed = uuid::Uuid::parse_str(id.as_str());
        assert!(parsed.is_ok());
        // The parsed value re-serializes to the same digits, lowercased.
        assert_eq!(
            parsed.unwrap().simple().to_string(),
            id.as_str().to_lowercase()
        );
    }
}
