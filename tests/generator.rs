use braid::check_mode::{CheckMode, IndefiniteCheckMode, ModeConflict};
use braid::codegen::ParamsRef;
use braid::impls::{
    AutoImplOption, DelegatingImplOption, ImplClone, ImplDebug, ImplOption, ImplSerde, Impls,
    InvalidChoice,
};
use braid::params::{Arg, Lit, ParamError, ParamErrorKind, Params, StdLib};
use braid::plan::{ModeKind, OwnedItem, RefItem};
use braid::shape::{infer_ref_type_from_owned_name, FieldDecl, FieldName, ShapeError, StructDecl};
use braid::symbol::Symbol;

fn path(k: &str) -> Arg {
    Arg::Path(k.to_owned())
}

fn value(k: &str, v: &str) -> Arg {
    Arg::NameValue(k.to_owned(), Lit::Str(v.to_owned()))
}

fn decl(name: &str) -> StructDecl {
    StructDecl { name: name.to_owned(), fields: Vec::new() }
}

fn build(args: Vec<Arg>, name: &str) -> braid::codegen::CodeGen {
    Params::parse(&args).unwrap().build(decl(name)).unwrap()
}

#[test]
fn symbols_are_looked_up_by_spelling() {
    assert_eq!(Symbol::lookup("ref_doc"), Some(Symbol::RefDoc));
    assert_eq!(Symbol::lookup("no_expose"), Some(Symbol::NoExpose));
    assert_eq!(Symbol::lookup("owned"), None);
    assert_eq!(Symbol::Normalizer.name(), "normalizer");
}

#[test]
fn policy_values_parse() {
    assert_eq!(ImplOption::from_str("impl"), Ok(ImplOption::Implement));
    assert_eq!(ImplOption::from_str("owned"), Err(InvalidChoice::ImplOrOmit));
    assert_eq!(DelegatingImplOption::from_str("owned"), Ok(DelegatingImplOption::OwnedOnly));
    assert_eq!(DelegatingImplOption::from_str("auto"), Err(InvalidChoice::ImplOwnedOrOmit));
    assert_eq!(AutoImplOption::from_str("none"), Ok(AutoImplOption::Disabled));
    assert_eq!(
        InvalidChoice::ImplOwnedOrOmit.message(),
        "valid values are: `impl`, `owned`, or `omit`"
    );
    assert_eq!(DelegatingImplOption::from(ImplOption::Omit), DelegatingImplOption::Omit);
    assert!(DelegatingImplOption::OwnedOnly.on_owned());
    assert!(!DelegatingImplOption::OwnedOnly.on_borrowed());
}

#[test]
fn default_policies() {
    let impls = Impls::default();
    assert_eq!(impls.clone, ImplClone(ImplOption::Implement));
    assert_eq!(impls.debug, ImplDebug(DelegatingImplOption::Implement));
    assert_eq!(impls.serde, ImplSerde(ImplOption::Omit));
}

#[test]
fn check_mode_rejects_a_second_declaration() {
    let mut m = IndefiniteCheckMode::Unchecked;
    assert_eq!(m.try_set_validator(None), Ok(()));
    assert_eq!(m.try_set_validator(None), Err(ModeConflict::Repeated(Symbol::Validator)));
    assert_eq!(m.try_set_normalizer(Some("N".to_owned())), Err(ModeConflict::Exclusive));
    assert_eq!(
        ModeConflict::Exclusive.message(),
        "only one of validator and normalizer can be specified at a time"
    );
    assert!(matches!(
        m.infer_validator_if_missing("Token"),
        CheckMode::Validate(ref t) if t == "Token"
    ));

    let mut resolved = CheckMode::Unchecked;
    assert_eq!(resolved.try_set_normalizer("Lower".to_owned()), Ok(()));
    assert_eq!(
        resolved.try_set_normalizer("Lower".to_owned()),
        Err(ModeConflict::Repeated(Symbol::Normalizer))
    );
}

#[test]
fn parse_collects_options() {
    let args = vec![
        path("serde"),
        path("validator"),
        value("ref", "SomeRef"),
        value("ref_doc", "A doc"),
        Arg::List("ref_attr".to_owned(), "derive(Default)".to_owned()),
        value("debug", "owned"),
        path("no_std"),
        path("no_expose"),
    ];
    let p = Params::parse(&args).unwrap();
    assert_eq!(p.impls.serde, ImplSerde(ImplOption::Implement));
    assert_eq!(p.impls.debug, ImplDebug(DelegatingImplOption::OwnedOnly));
    assert_eq!(p.ref_ty.as_deref(), Some("SomeRef"));
    assert_eq!(p.ref_doc, vec!["A doc".to_owned()]);
    assert_eq!(p.ref_attrs, vec!["derive(Default)".to_owned()]);
    assert_eq!(p.std_lib, StdLib::NoStd);
    assert_eq!(p.std_lib.core_root(), "core");
    assert!(!p.expose_inner);
    assert!(matches!(p.check_mode, IndefiniteCheckMode::Validate(None)));
}

#[test]
fn parse_rejects_conflicts_and_unknown_keys() {
    let err = |args: Vec<Arg>| Params::parse(&args).err().unwrap();
    assert_eq!(
        err(vec![path("validator"), path("validator")]),
        ParamError { at: 1, kind: ParamErrorKind::Conflict(ModeConflict::Repeated(Symbol::Validator)) }
    );
    assert_eq!(
        err(vec![value("normalizer", "N"), path("serde"), value("validator", "V")]),
        ParamError { at: 2, kind: ParamErrorKind::Conflict(ModeConflict::Exclusive) }
    );
    assert_eq!(
        err(vec![path("serde"), path("bogus")]),
        ParamError { at: 1, kind: ParamErrorKind::Unsupported }
    );
    assert_eq!(err(vec![path("ref")]), ParamError { at: 0, kind: ParamErrorKind::Unsupported });
    assert_eq!(
        err(vec![Arg::NameValue("ref".to_owned(), Lit::Other)]),
        ParamError { at: 0, kind: ParamErrorKind::ExpectedString(Symbol::Ref) }
    );
    assert_eq!(
        err(vec![value("ref", "not a type")]),
        ParamError { at: 0, kind: ParamErrorKind::InvalidType(Symbol::Ref) }
    );
    assert_eq!(
        err(vec![path("serde"), value("normalizer", "Vec<")]).kind,
        ParamErrorKind::InvalidType(Symbol::Normalizer)
    );
    assert!(Params::parse(&vec![value("normalizer", "a::B<C>")]).is_ok());
    assert_eq!(
        err(vec![value("clone", "owned")]),
        ParamError {
            at: 0,
            kind: ParamErrorKind::InvalidChoice(Symbol::Clone, InvalidChoice::ImplOrOmit)
        }
    );
}

#[test]
fn borrowed_names_follow_the_convention() {
    assert_eq!(infer_ref_type_from_owned_name("UsernameBuf"), "Username");
    assert_eq!(infer_ref_type_from_owned_name("LowerString"), "Lower");
    assert_eq!(infer_ref_type_from_owned_name("Orange"), "OrangeRef");
    assert_eq!(infer_ref_type_from_owned_name("Buf"), "BufRef");
}

#[test]
fn build_synthesizes_field_and_names() {
    let g = build(vec![path("normalizer")], "LowerString");
    assert_eq!(g.ref_ty, "Lower");
    assert_eq!(g.field.ty, "String");
    assert!(matches!(g.field.name, FieldName::Unnamed));
    assert!(matches!(g.check_mode, CheckMode::Normalize(ref t) if t == "LowerString"));

    let g = build(vec![value("ref", "SomeRefName"), value("validator", "ValidatedBuf")], "X");
    assert_eq!(g.ref_ty, "SomeRefName");
    assert!(matches!(g.check_mode, CheckMode::Validate(ref t) if t == "ValidatedBuf"));
}

#[test]
fn build_keeps_one_field_and_rejects_two() {
    let field = |name: Option<&str>| FieldDecl {
        name: name.map(|n| n.to_owned()),
        ty: "String".to_owned(),
        attrs: Vec::new(),
    };
    let one = StructDecl { name: "OrangeWithNamedField".to_owned(), fields: vec![field(Some("id"))] };
    let g = Params::parse(&vec![]).unwrap().build(one).unwrap();
    assert!(matches!(g.field.name, FieldName::Named(ref n) if n == "id"));
    assert_eq!(g.field.name.input_name(), "id");

    let two = StructDecl { name: "Two".to_owned(), fields: vec![field(None), field(None)] };
    assert_eq!(Params::parse(&vec![]).unwrap().build(two).err(), Some(ShapeError::TooManyFields));
    assert_eq!(ShapeError::TooManyFields.message(), "typed string can only have one field");
}

#[test]
fn plan_depends_on_the_check_mode() {
    let none = build(vec![], "Orange");
    let owned = none.owned();
    let borrowed = none.borrowed();
    assert!(owned.contains(&OwnedItem::New));
    assert!(owned.contains(&OwnedItem::Deref));
    assert!(!owned.contains(&OwnedItem::NewUnchecked));
    assert!(borrowed.contains(&RefItem::FromStr));
    assert!(borrowed.contains(&RefItem::BorrowStr));
    assert!(!borrowed.contains(&RefItem::Serialize));

    let validated = build(vec![path("validator"), path("serde")], "Token");
    let owned = validated.owned();
    let borrowed = validated.borrowed();
    assert!(owned.contains(&OwnedItem::NewChecked));
    assert!(owned.contains(&OwnedItem::DerefUnchecked));
    assert!(borrowed.contains(&RefItem::FromStrChecked));
    assert!(borrowed.contains(&RefItem::TryFromStrRef));
    assert!(borrowed.contains(&RefItem::BorrowStr));
    assert!(borrowed.contains(&RefItem::DeserializeChecked));
    assert!(!borrowed.contains(&RefItem::Deserialize));
    assert!(!borrowed.contains(&RefItem::DeserializeStrict));
    assert!(owned.contains(&OwnedItem::SerdeChecked));
    assert!(!owned.contains(&OwnedItem::Serde));
    assert!(owned.contains(&OwnedItem::FromStrFallible));
    assert!(!owned.contains(&OwnedItem::FromStrInfallible));

    let normalized = build(vec![path("normalizer"), path("serde")], "LowerString");
    let owned = normalized.owned();
    let borrowed = normalized.borrowed();
    assert!(owned.contains(&OwnedItem::NewNormalizing));
    assert!(!owned.contains(&OwnedItem::BorrowStr));
    assert!(borrowed.contains(&RefItem::FromNormalizedStr));
    assert!(borrowed.contains(&RefItem::FromStrNormalizing));
    assert!(!borrowed.contains(&RefItem::BorrowStr));
    assert!(borrowed.contains(&RefItem::DeserializeStrict));
    assert!(!borrowed.contains(&RefItem::Deserialize));
    assert!(!borrowed.contains(&RefItem::DeserializeChecked));
    assert!(borrowed.contains(&RefItem::DeserializeBoxed));
}

#[test]
fn plan_follows_the_trait_policies() {
    let custom = build(
        vec![value("clone", "omit"), value("debug", "omit"), value("display", "owned"), value("ord", "owned")],
        "CustomImpls",
    );
    let e = custom.generate();
    assert!(!e.owned.contains(&OwnedItem::DeriveClone));
    assert!(!e.owned.contains(&OwnedItem::Debug));
    assert!(!e.borrowed.contains(&RefItem::Debug));
    assert!(e.owned.contains(&OwnedItem::Display));
    assert!(!e.borrowed.contains(&RefItem::Display));
    assert!(e.owned.contains(&OwnedItem::Ord));
    assert!(!e.borrowed.contains(&RefItem::DeriveOrd));

    let hidden = build(vec![path("no_expose")], "CompactData");
    let owned = hidden.owned();
    assert!(!owned.contains(&OwnedItem::Take));
    assert!(!owned.contains(&OwnedItem::FromWrapped));
    assert!(owned.contains(&OwnedItem::IntoBoxedRef));
}

#[test]
fn plan_lists_each_item_once_in_order() {
    let g = build(vec![], "Orange");
    let owned = g.owned();
    assert_eq!(owned[0], OwnedItem::DeriveClone);
    assert_eq!(owned[1], OwnedItem::New);
    assert_eq!(owned.len(), 21);
    let borrowed = g.borrowed();
    assert_eq!(borrowed[0], RefItem::DeriveOrd);
    assert_eq!(borrowed.len(), 16);
}

#[test]
fn borrowed_only_declarations() {
    let p = ParamsRef::parse(&vec![path("serde"), path("no_std")]).unwrap();
    let g = p.build(decl("Element")).unwrap();
    assert_eq!(g.field.ty, "str");
    let items = g.tokens();
    assert!(items.contains(&RefItem::FromStr));
    assert!(items.contains(&RefItem::Serialize));
    assert!(!items.contains(&RefItem::IntoOwned));
    assert!(!items.contains(&RefItem::DeserializeBoxed));

    assert_eq!(
        ParamsRef::parse(&vec![path("normalizer")]).err(),
        Some(ParamError { at: 0, kind: ParamErrorKind::Unsupported })
    );
    assert_eq!(
        ParamsRef::parse(&vec![value("debug", "owned")]).err(),
        Some(ParamError {
            at: 0,
            kind: ParamErrorKind::InvalidChoice(Symbol::Debug, InvalidChoice::ImplOrOmit)
        })
    );
    let _ = ModeKind::Unchecked;
}

#[test]
fn earlier_policy_values() {
    assert_eq!(AutoImplOption::from_str("auto"), Ok(AutoImplOption::Auto));
    assert_eq!(AutoImplOption::from_str("owned"), Ok(AutoImplOption::OwnedOnly));
    assert_eq!(AutoImplOption::from_str("impl"), Err(InvalidChoice::AutoOwnedOrNone));
    assert_eq!(AutoImplOption::default(), AutoImplOption::Auto);
    assert_eq!(AutoImplOption::Disabled.to_delegating(), DelegatingImplOption::Omit);
    assert_eq!(
        InvalidChoice::AutoOwnedOrNone.message(),
        "valid values are: `auto`, `owned`, or `none`"
    );
}

#[test]
fn parse_takes_the_type_check_as_given() {
    let args = vec![value("validator", "Checker"), path("serde")];
    let p = Params::parse_with(&args, &vec![true, true]).unwrap();
    assert!(matches!(p.check_mode, IndefiniteCheckMode::Validate(Some(ref t)) if t == "Checker"));
    assert_eq!(
        Params::parse_with(&args, &vec![false, true]).err(),
        Some(ParamError { at: 0, kind: ParamErrorKind::InvalidType(Symbol::Validator) })
    );
    // The outcome for a key whose value names no type does not matter.
    assert!(Params::parse_with(&vec![value("debug", "owned")], &vec![false]).is_ok());
    assert_eq!(
        ParamsRef::parse_with(&args, &vec![false, true]).err(),
        Some(ParamError { at: 0, kind: ParamErrorKind::InvalidType(Symbol::Validator) })
    );
    assert!(ParamsRef::parse_with(&args, &vec![true, true]).is_ok());
}

#[test]
fn plan_serde_without_checks() {
    let g = build(vec![path("serde")], "Orange");
    let e = g.generate();
    assert!(e.owned.contains(&OwnedItem::Serde));
    assert!(!e.owned.contains(&OwnedItem::SerdeChecked));
    assert!(e.owned.contains(&OwnedItem::FromStrInfallible));
    assert!(e.borrowed.contains(&RefItem::Deserialize));
    assert!(!e.borrowed.contains(&RefItem::DeserializeChecked));
}
