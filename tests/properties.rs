use std::collections::hash_map::DefaultHasher;
use std::hash::{Hash, Hasher};
use std::mem::{align_of, size_of};

use braid::braid::BraidCow;
use braid::lower::{LowerStr, LowerString};
use braid::rules::Normalizer;
use braid::samples::{
    InvalidUsername, Normalized, NormalizedBuf, Orange, OrangeRef, SpacelessRules, Username,
    UsernameBuf, Validated, ValidatedBuf,
};

fn hash_of<T: Hash>(t: &T) -> u64 {
    let mut hasher = DefaultHasher::new();
    t.hash(&mut hasher);
    hasher.finish()
}

#[test]
fn unchecked_wrapper_scenario() {
    let name = Orange::new("mongo".to_owned());
    assert_eq!(name.as_str(), "mongo");
    assert_eq!(name.as_ref(), OrangeRef::from_str("mongo"));
    assert_eq!(name, OrangeRef::from_str("mongo"));
}

#[test]
fn unchecked_round_trip_keeps_any_text() {
    for s in ["", " ", "Test 🏗", "a\u{0}b", "ünïcödé"] {
        let owned = Orange::new(s.to_owned());
        assert_eq!(owned.as_str(), s);
        assert_eq!(owned, OrangeRef::from_str(s));
    }
}

#[test]
fn validated_wrapper_scenario() {
    assert!(matches!(UsernameBuf::new("".to_owned()), Err(InvalidUsername::EmptyString)));
    assert!(matches!(UsernameBuf::new("root".to_owned()), Err(InvalidUsername::Reserved)));
    assert!(matches!(UsernameBuf::new("RoOt".to_owned()), Err(InvalidUsername::Reserved)));
    let ok = UsernameBuf::new("nobody".to_owned()).unwrap();
    assert_eq!(ok.as_str(), "nobody");
    assert_eq!(Username::from_str("rooted").unwrap().as_str(), "rooted");
}

#[test]
fn validation_gate_agrees_between_forms() {
    for s in ["One", "Test 🏗", "", "x🏗y"] {
        let owned = ValidatedBuf::new(s.to_owned());
        let borrowed = Validated::from_str(s);
        assert_eq!(owned.is_ok(), borrowed.is_ok());
        if let (Ok(o), Ok(b)) = (owned, borrowed) {
            assert_eq!(o.as_str(), s);
            assert_eq!(b.as_str(), s);
        }
    }
}

#[test]
fn normalized_wrapper_scenario() {
    let lower = LowerString::new("TestIng".to_owned()).unwrap();
    assert_eq!(lower.as_str(), "testing");
    assert!(LowerStr::from_normalized_str("TestIng").is_err());
    assert_eq!(LowerStr::from_normalized_str("testing").unwrap().as_str(), "testing");
}

#[test]
fn normalizing_a_normal_form_borrows_it() {
    let first = SpacelessRules::normalize("One Two Three").unwrap();
    let canonical = first.to_string();
    assert_eq!(canonical, "OneTwoThree");
    let again = SpacelessRules::normalize(&canonical).unwrap();
    assert!(matches!(again, std::borrow::Cow::Borrowed("OneTwoThree")));
    assert!(Normalized::from_normalized_str("One Two").is_err());
    assert_eq!(Normalized::from_normalized_str("OneTwo").unwrap().as_str(), "OneTwo");
    assert!(matches!(Normalized::from_str("OneTwo").unwrap(), BraidCow::Borrowed(_)));
}

#[test]
fn owned_and_borrowed_hash_alike() {
    for s in ["One", "", "Test \u{037E}", "OneTwo"] {
        let owned = ValidatedBuf::new(s.to_owned()).unwrap();
        let borrowed = Validated::from_str(s).unwrap();
        assert_eq!(hash_of(&owned), hash_of(&borrowed));
        assert_eq!(hash_of(&owned.as_ref()), hash_of(&borrowed));
        assert_eq!(owned, borrowed);
        assert_eq!(borrowed, owned);
        let boxed = owned.clone().into_boxed_ref();
        assert_eq!(hash_of(&boxed), hash_of(&owned));
        assert_eq!(boxed.as_ref(), borrowed);
    }
    let n = NormalizedBuf::new("One Two".to_owned()).unwrap();
    assert_eq!(hash_of(&n), hash_of(&Normalized::from_static("OneTwo")));
}

#[test]
fn representations_match_their_string_types() {
    assert_eq!(size_of::<OrangeRef>(), size_of::<&str>());
    assert_eq!(align_of::<OrangeRef>(), align_of::<&str>());
    assert_eq!(size_of::<Orange>(), size_of::<String>());
    assert_eq!(align_of::<Orange>(), align_of::<String>());
    assert_eq!(size_of::<braid::braid::BraidBox<braid::braid::Validating<braid::samples::NarrowRules>>>(), size_of::<Box<str>>());
}

#[test]
fn serialization_round_trip_scenario() {
    let value = UsernameBuf::new("nobody".to_owned()).unwrap();
    let text = serde_json::to_string(value.serialize_str()).unwrap();
    assert_eq!(text, "\"nobody\"");
    let raw: String = serde_json::from_str(&text).unwrap();
    let back = UsernameBuf::deserialize_string(raw).unwrap();
    assert_eq!(back, value);

    let root: String = serde_json::from_str("\"root\"").unwrap();
    assert!(UsernameBuf::deserialize_string(root).is_err());

    let wire = "\"nobody\"".to_owned();
    let slice: &str = serde_json::from_str(&wire).unwrap();
    assert_eq!(Username::deserialize_str(slice).unwrap().as_str(), "nobody");
}

#[test]
fn strict_borrowed_deserialization_rejects_non_canonical_text() {
    assert!(Normalized::deserialize_str("One Two").is_err());
    assert_eq!(Normalized::deserialize_str("OneTwo").unwrap().as_str(), "OneTwo");
    assert_eq!(NormalizedBuf::deserialize_string("One Two".to_owned()).unwrap().as_str(), "OneTwo");
}
