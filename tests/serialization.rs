use braid::samples::{Normalized, NormalizedBuf, Orange, OrangeRef, Validated, ValidatedBuf};

#[test]
fn infallible_parsing_owned_pass() {
    let x: Orange = "One".parse().unwrap();
    assert_eq!("One", x.as_str());
}

#[test]
fn fallible_parsing_owned_pass() {
    let x: ValidatedBuf = "One".parse().unwrap();
    assert_eq!("One", x.as_str());
}

#[test]
fn normalized_parsing_owned_pass() {
    let x: NormalizedBuf = "One".parse().unwrap();
    assert_eq!("One", x.as_str());
}

#[test]
fn parsing_owned_non_normal_pass() {
    let x: NormalizedBuf = "One Two".parse().unwrap();
    assert_eq!("OneTwo", x.as_str());
}

#[test]
fn verify_serialization_non_validated() {
    const SOURCE: &str = "Test \u{1F3D7}";
    const EXPECTED_SERIALIZATION: &str = "\"Test \u{1F3D7}\"";

    let start = Orange::from_static(SOURCE);

    let own_serialized = serde_json::to_string(start.serialize_str()).unwrap();
    assert_eq!(EXPECTED_SERIALIZATION, own_serialized);
    let raw: &str = serde_json::from_str(&own_serialized).unwrap();
    let borrow = OrangeRef::deserialize_str(raw);
    assert_eq!(start, borrow);
    let borrow_serialized = serde_json::to_string(borrow.serialize_str()).unwrap();
    assert_eq!(EXPECTED_SERIALIZATION, borrow_serialized);
    let raw: String = serde_json::from_str(&borrow_serialized).unwrap();
    let boxed = Orange::deserialize_string(raw).into_boxed_ref();
    assert_eq!(borrow, boxed.as_ref());
    let box_serialized = serde_json::to_string(boxed.as_str()).unwrap();
    assert_eq!(EXPECTED_SERIALIZATION, box_serialized);
    let raw: String = serde_json::from_str(&box_serialized).unwrap();
    let owned = Orange::deserialize_string(raw);
    assert_eq!(boxed.as_ref(), owned.as_ref());

    assert_eq!(owned, start);
}

#[test]
fn fallible_verify_serialization_pass_borrow() {
    const SERIALIZATION: &str = "\"Test \u{037E}\"";
    let expected = Validated::from_str("Test \u{037E}").unwrap();
    let raw: &str = serde_json::from_str(SERIALIZATION).unwrap();
    let actual = Validated::deserialize_str(raw).unwrap();
    assert_eq!(expected, actual);
}

#[test]
fn fallible_verify_serialization_pass_boxed() {
    const SERIALIZATION: &str = "\"Test \u{037E}\"";
    let expected = Validated::from_str("Test \u{037E}").unwrap();
    let raw: String = serde_json::from_str(SERIALIZATION).unwrap();
    let actual = ValidatedBuf::deserialize_string(raw).unwrap().into_boxed_ref();
    assert_eq!(expected, actual.as_ref());
}

#[test]
fn fallible_verify_serialization_pass_owned() {
    const SERIALIZATION: &str = "\"Test \u{037E}\"";
    let expected = Validated::from_str("Test \u{037E}").unwrap();
    let raw: String = serde_json::from_str(SERIALIZATION).unwrap();
    let actual = ValidatedBuf::deserialize_string(raw).unwrap();
    assert_eq!(expected, actual);
}

#[test]
fn fallible_deserialization_rejects_wide_characters() {
    const SERIALIZATION: &str = "\"Test \u{1F3D7}\"";
    let raw: &str = serde_json::from_str(SERIALIZATION).unwrap();
    assert!(Validated::deserialize_str(raw).is_err());
    assert!(ValidatedBuf::deserialize_string(raw.to_owned()).is_err());
}

#[test]
fn verify_serialization_pass_boxed_valid_but_non_normal() {
    const SERIALIZATION: &str = "\"Test \u{037E}\"";
    let cow = Normalized::from_str("Test\u{037E}").unwrap();
    let expected = cow.as_ref();
    let raw: String = serde_json::from_str(SERIALIZATION).unwrap();
    let actual = NormalizedBuf::deserialize_string(raw).unwrap().into_boxed_ref();
    assert_eq!(expected, actual.as_ref());
}

#[test]
fn verify_serialization_pass_owned_valid_but_non_normal() {
    const SERIALIZATION: &str = "\"Test \u{037E}\"";
    let cow = Normalized::from_str("Test\u{037E}").unwrap();
    let expected = cow.as_ref();
    let raw: String = serde_json::from_str(SERIALIZATION).unwrap();
    let actual = NormalizedBuf::deserialize_string(raw).unwrap();
    assert_eq!(expected, actual);
}

#[test]
fn normalized_verify_serialization_pass_borrow() {
    const SERIALIZATION: &str = "\"Test\u{037E}\"";
    let cow = Normalized::from_str("Test\u{037E}").unwrap();
    let expected = cow.as_ref();
    let raw: &str = serde_json::from_str(SERIALIZATION).unwrap();
    let actual = Normalized::deserialize_str(raw).unwrap();
    assert_eq!(expected, actual);
}

#[test]
fn normalized_verify_serialization_pass_boxed() {
    const SERIALIZATION: &str = "\"Test\u{037E}\"";
    let cow = Normalized::from_str("Test\u{037E}").unwrap();
    let expected = cow.as_ref();
    let raw: String = serde_json::from_str(SERIALIZATION).unwrap();
    let actual = NormalizedBuf::deserialize_string(raw).unwrap().into_boxed_ref();
    assert_eq!(expected, actual.as_ref());
}

#[test]
fn normalized_verify_serialization_pass_owned() {
    const SERIALIZATION: &str = "\"Test\u{037E}\"";
    let cow = Normalized::from_str("Test\u{037E}").unwrap();
    let expected = cow.as_ref();
    let raw: String = serde_json::from_str(SERIALIZATION).unwrap();
    let actual = NormalizedBuf::deserialize_string(raw).unwrap();
    assert_eq!(expected, actual);
}

#[test]
fn normalized_borrowed_deserialization_needs_normal_form() {
    const SERIALIZATION: &str = "\"Test \u{037E}\"";
    let raw: &str = serde_json::from_str(SERIALIZATION).unwrap();
    assert!(Normalized::deserialize_str(raw).is_err());
}
