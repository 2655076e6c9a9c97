use filler::generator::{Generator, UuidGen};

#[test]
fn uuids_use_v4() {
    let u_gen = UuidGen::new();
    let id = u_gen.generate();
    let version = id.get_version_num();
    assert_eq!(version, 4);
}

#[test]
fn hyphenated_matches_uuid_crate() {
    let u_gen = UuidGen::new();
    for _ in 0..32 {
        let id = u_gen.generate();
        let text = id.hyphenated();
        // The rendering must be a canonical UUID string in the eyes of the
        // uuid crate itself, and a version-4 one.
        let parsed = uuid::Uuid::parse_str(&text).unwrap();
        assert_eq!(parsed.get_version_num(), 4);
        assert_eq!(parsed.hyphenated().to_string(), text);
        assert_eq!(text.len(), 36);
    }
}

#[test]
fn batch_has_requested_size() {
    let u_gen = UuidGen::new();
    let ids = u_gen.generate_many(7);
    assert_eq!(ids.len(), 7);
    let none = u_gen.generate_many(0);
    assert!(none.is_empty());
}
