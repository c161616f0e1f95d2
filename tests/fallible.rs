use std::collections::{BTreeSet, HashSet};
use std::convert::TryInto;

use braid::samples::{Validated, ValidatedBuf};

#[test]
fn fallible_equality_tests() {
    let x = ValidatedBuf::from_static("One");
    let y = Validated::from_static("One");

    assert_eq!(x, y);
    assert_eq!(x.as_ref(), y);
    assert_eq!(&x.as_ref(), &y);
    assert_eq!(y, x);
    assert_eq!(y, x.as_ref());
    assert_eq!(y.to_owned(), x);

    assert_eq!("One", x.clone().take());
    let z = x.clone().into_boxed_ref();
    assert_eq!(y, z.as_ref());
    assert_eq!(z.as_ref(), y);
    assert_eq!(x, z.as_ref());
    assert_eq!(z.as_ref(), x);

    assert_eq!(x, z.into_owned());
}

#[test]
fn fallible_debug_and_display_tests() {
    let x = ValidatedBuf::from_static("One");
    let y = Validated::from_static("One");

    assert_eq!("One", x.display_string());
    assert_eq!("One", y.display_string());
    assert_eq!("\"One\"", x.debug_string());
    assert_eq!("\"One\"", y.debug_string());
}

#[test]
fn fallible_try_from_owned_pass() {
    let x: ValidatedBuf = "One".try_into().unwrap();
    assert_eq!("One", x.as_str());
}

#[test]
fn fallible_try_from_borrowed_pass() {
    let x: Validated = "One".try_into().unwrap();
    assert_eq!("One", x.as_str());
}

#[test]
fn fallible_can_use_as_hash_keys() {
    let mut map = HashSet::new();

    assert!(map.insert(ValidatedBuf::from_static("One")));
    assert!(map.insert(ValidatedBuf::from_static("Seven")));

    assert!(map.contains(&Validated::from_static("One").to_owned()));
    assert!(map.contains(&ValidatedBuf::from_static("One")));
    assert!(!map.contains(&Validated::from_static("Two").to_owned()));

    assert!(!map.remove(&Validated::from_static("Two").to_owned()));
    assert!(map.remove(&Validated::from_static("One").to_owned()));
    assert!(!map.remove(&Validated::from_static("One").to_owned()));

    assert!(map.remove(&ValidatedBuf::from_static("Seven")));
    assert!(!map.remove(&Validated::from_static("Seven").to_owned()));

    assert!(map.is_empty());
}

#[test]
fn fallible_can_use_refs_as_hash_keys() {
    let one = ValidatedBuf::from_static("One");
    let seven = ValidatedBuf::from_static("Seven");
    let mut map = HashSet::new();

    assert!(map.insert(Validated::from_static("One")));
    assert!(map.insert(Validated::from_static("Seven")));

    assert!(map.contains(&Validated::from_static("One")));
    assert!(map.contains(&one.as_ref()));
    assert!(!map.contains(&Validated::from_static("Two")));

    assert!(!map.remove(&Validated::from_static("Two")));
    assert!(map.remove(&Validated::from_static("One")));
    assert!(!map.remove(&Validated::from_static("One")));

    assert!(map.remove(&seven.as_ref()));
    assert!(!map.remove(&Validated::from_static("Seven")));

    assert!(map.is_empty());
}

#[test]
fn fallible_can_use_as_btree_keys() {
    let mut map = BTreeSet::new();

    assert!(map.insert(ValidatedBuf::from_static("One")));
    assert!(map.insert(ValidatedBuf::from_static("Seven")));

    assert!(map.contains(&Validated::from_static("One").to_owned()));
    assert!(map.contains(&ValidatedBuf::from_static("One")));
    assert!(!map.contains(&Validated::from_static("Two").to_owned()));

    assert!(!map.remove(&Validated::from_static("Two").to_owned()));
    assert!(map.remove(&Validated::from_static("One").to_owned()));
    assert!(!map.remove(&Validated::from_static("One").to_owned()));

    assert!(map.remove(&ValidatedBuf::from_static("Seven")));
    assert!(!map.remove(&Validated::from_static("Seven").to_owned()));

    assert!(map.is_empty());
}

#[test]
fn fallible_can_use_refs_as_btree_keys() {
    let one = ValidatedBuf::from_static("One");
    let seven = ValidatedBuf::from_static("Seven");
    let mut map = BTreeSet::new();

    assert!(map.insert(Validated::from_static("One")));
    assert!(map.insert(Validated::from_static("Seven")));

    assert!(map.contains(&Validated::from_static("One")));
    assert!(map.contains(&one.as_ref()));
    assert!(!map.contains(&Validated::from_static("Two")));

    assert!(!map.remove(&Validated::from_static("Two")));
    assert!(map.remove(&Validated::from_static("One")));
    assert!(!map.remove(&Validated::from_static("One")));

    assert!(map.remove(&seven.as_ref()));
    assert!(!map.remove(&Validated::from_static("Seven")));

    assert!(map.is_empty());
}
