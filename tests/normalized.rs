use braid::braid::{BraidCow, Normalizing};
use braid::lower::{InvalidString, LowerRules, LowerStr, LowerString};

#[test]
fn owned_handles_already_normal() {
    let x = LowerString::from_static("testing");
    assert_eq!(x.as_str(), "testing");
}

#[test]
fn owned_handles_valid_non_normal() {
    let x = LowerString::from_static("TestIng");
    assert_eq!(x.as_str(), "testing");
}

#[test]
fn owned_rejects_invalid() {
    let x = LowerString::new("".to_owned());
    assert!(matches!(x, Err(_)));
}

#[test]
fn ref_handles_already_normal() {
    let x = LowerStr::from_str("testing").unwrap();
    assert!(matches!(x, BraidCow::Borrowed(_)));
    assert_eq!(x.as_str(), "testing");
}

#[test]
fn from_static_ref_handles_already_normal() {
    let x = LowerStr::from_static("testing");
    assert_eq!(x.as_str(), "testing");
}

#[test]
fn ref_handles_valid_non_normal() {
    let x = LowerStr::from_str("TestIng").unwrap();
    assert!(matches!(x, BraidCow::Owned(_)));
    assert_eq!(x.as_str(), "testing");
}

fn needs_ref(_: LowerStr) {}
fn needs_owned(_: LowerString) {}

#[test]
fn ref_as_ref_already_normal() {
    let cow = LowerStr::from_str("testing").unwrap();
    let borrowed = cow.as_ref();
    needs_ref(borrowed);
}

#[test]
fn ref_as_ref_valid_non_normal() {
    let cow = LowerStr::from_str("TestIng").unwrap();
    let borrowed = cow.as_ref();
    needs_ref(borrowed);
}

#[test]
fn ref_to_owned_already_normal() {
    let owned = LowerStr::from_str("testing").unwrap().into_owned();
    needs_owned(owned);
}

#[test]
fn ref_to_owned_valid_non_normal() {
    let owned = LowerStr::from_str("TestIng").unwrap().into_owned();
    needs_owned(owned);
}

#[test]
fn ref_rejects_invalid() {
    let x = LowerStr::from_str("");
    assert!(matches!(x, Err(_)));
}

#[test]
fn ref_norm_handles_already_normal() {
    let x = LowerStr::from_normalized_str("testing").unwrap();
    assert_eq!(x.as_str(), "testing");
}

#[test]
fn ref_norm_rejects_valid_non_normal() {
    let x = LowerStr::from_normalized_str("TestIng");
    assert!(matches!(x, Err(_)));
}

#[test]
fn ref_norm_rejects_invalid() {
    let x = LowerStr::from_normalized_str("");
    assert!(matches!(x, Err(_)));
}

#[allow(dead_code)]
struct Bar<'a> {
    foo: BraidCow<'a, Normalizing<LowerRules>>,
}

#[test]
fn normalized_owned_as_cow() {
    let owned = LowerString::new("ORANGE".to_owned()).unwrap();
    let _bar = Bar { foo: owned.into() };
}

#[test]
fn normalized_borrowed_as_cow() {
    let borrowed = LowerStr::from_normalized_str("orange").unwrap();
    let _bar = Bar {
        foo: borrowed.into(),
    };
}

#[test]
fn normalized_owned_as_ref_borrowed() {
    let owned = LowerString::new("ORANGE".to_owned()).unwrap();
    let _reference: LowerStr = owned.as_ref();
}

#[test]
fn normalized_owned_as_ref_str() {
    let owned = LowerString::new("ORANGE".to_owned()).unwrap();
    let _reference: &str = owned.as_str();
}

#[test]
fn normalized_borrowed_as_ref_str() {
    let owned = LowerStr::from_normalized_str("orange").unwrap();
    let _reference: &str = owned.as_str();
}

#[test]
fn lower_errors_name_the_cause() {
    assert!(matches!(LowerString::new("".to_owned()), Err(InvalidString::EmptyString)));
    assert!(matches!(
        LowerStr::from_normalized_str("Orange"),
        Err(InvalidString::InvalidCharacter)
    ));
    assert_eq!(LowerString::new("ORANGE".to_owned()).unwrap().as_str(), "orange");
}

#[test]
fn lower_rejects_uppercase_without_lowercase_form() {
    assert!(matches!(
        LowerString::new("\u{03D2}".to_owned()),
        Err(InvalidString::InvalidCharacter)
    ));
    assert!(LowerStr::from_str("\u{03D2}").is_err());
}
