use braid::check_mode::{CheckMode, IndefiniteCheckMode};
use braid::codegen::ParamsRef;
use braid::impls::{Impls, ImplSerde, ImplOption};
use braid::lower::InvalidString;
use braid::params::{Params, StdLib};
use braid::samples::{Element, MinimalString, SmartUsername, SmartUsernameBuf};

#[test]
fn minimal_string_conversions() {
    let a = MinimalString::from("name".to_owned());
    let b = MinimalString::from("name");
    let c = MinimalString::from(Box::<str>::from("name"));
    assert_eq!(a, b);
    assert_eq!(b, c);
    assert_eq!(a.as_str(), "name");
    assert_eq!(c.into_string(), "name".to_owned());
}

#[test]
fn invalid_string_messages() {
    assert_eq!(InvalidString::EmptyString.message(), "string cannot be empty");
    assert_eq!(
        InvalidString::InvalidCharacter.message(),
        "string contains invalid uppercase character"
    );
}

#[test]
fn defaults_of_the_parameter_model() {
    let p = Params::default();
    assert!(p.ref_ty.is_none());
    assert!(p.ref_doc.is_empty());
    assert!(p.expose_inner);
    assert_eq!(p.std_lib, StdLib::default());
    assert_eq!(p.impls, Impls::default());
    assert!(matches!(p.check_mode, IndefiniteCheckMode::Unchecked));
    assert!(matches!(CheckMode::default(), CheckMode::Unchecked));
    let r = ParamsRef::default();
    assert_eq!(r.impls.serde, ImplSerde(ImplOption::Omit));
    assert_eq!(StdLib::Std.alloc_root(), "std");
    assert_eq!(StdLib::NoStd.alloc_root(), "alloc");
}

#[test]
fn borrowed_only_and_sso_samples() {
    let e = Element::from_str("element");
    assert_eq!(e.as_str(), "element");
    let u = SmartUsernameBuf::new("user".to_owned());
    assert_eq!(u, SmartUsername::from_str("user"));
}
