use shtask::adapters::uuid_id::UuidIdGenerator;
use shtask::application::ports::IdGenerator;

#[test]
fn generates_non_empty_unique_ids() {
    let ids = UuidIdGenerator::new();

    let first = ids.new_id();
    let second = ids.new_id();

    assert!(!first.as_str().is_empty());
    assert!(!second.as_str().is_empty());
    assert_ne!(first, second);
}

#[test]
fn uuid_ids_are_hyphenated_lowercase() {
    let id = UuidIdGenerator::new().new_id();
    let s = id.as_str();
    assert_eq!(s.len(), 36);
    for (i, c) in s.chars().enumerate() {
        if i == 8 || i == 13 || i == 18 || i == 23 {
            assert_eq!(c, '-');
        } else {
            assert!(c.is_ascii_hexdigit() && !c.is_ascii_uppercase());
        }
    }
}

#[test]
fn uuid_ids_carry_version_and_variant_marks() {
    for _ in 0..20 {
        let id = UuidIdGenerator::new().new_id();
        let chars: Vec<char> = id.as_str().chars().collect();
        assert_eq!(chars[14], '4');
        assert!(matches!(chars[19], '8' | '9' | 'a' | 'b'));
    }
}
