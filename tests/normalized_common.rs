use std::collections::{BTreeSet, HashSet};
use std::convert::TryInto;

use braid::samples::{Normalized, NormalizedBuf};

#[test]
fn normalized_equality_tests() {
    let x = NormalizedBuf::from_static("One Two");
    let cow = Normalized::from_str("One Two").unwrap();
    let y = cow.as_ref();
    assert_eq!(x, y);
    assert_eq!(x.as_ref(), y);
    assert_eq!(&x.as_ref(), &y);
    assert_eq!(y, x);
    assert_eq!(y, x.as_ref());
    assert_eq!(y.to_owned(), x);

    assert_eq!("OneTwo", x.clone().take());
    let z = x.clone().into_boxed_ref();
    assert_eq!(y, z.as_ref());
    assert_eq!(z.as_ref(), y);
    assert_eq!(x, z.as_ref());
    assert_eq!(z.as_ref(), x);

    assert_eq!(x, z.into_owned());
}

#[test]
fn normalized_try_from_owned_pass() {
    let x: NormalizedBuf = "One".try_into().unwrap();
    assert_eq!("One", x.as_str());
}

#[test]
fn try_from_owned_non_normal_pass() {
    let x: NormalizedBuf = "One Two".try_into().unwrap();
    assert_eq!("OneTwo", x.as_str());
}

#[test]
fn normalized_try_from_borrowed_pass() {
    let x: Normalized = "One".try_into().unwrap();
    assert_eq!("One", x.as_str());
}

#[test]
fn normalized_debug_and_display_tests() {
    let x = NormalizedBuf::from_static("One Two");
    let y = Normalized::from_str("One Two").unwrap();
    let z = Normalized::from_static("OneTwo");

    assert_eq!("OneTwo", x.display_string());
    assert_eq!("OneTwo", y.as_ref().display_string());
    assert_eq!("OneTwo", z.display_string());
    assert_eq!("\"OneTwo\"", x.debug_string());
    assert_eq!("\"OneTwo\"", y.as_ref().debug_string());
    assert_eq!("\"OneTwo\"", z.debug_string());
}

#[test]
fn normalized_can_use_as_hash_keys() {
    let mut map = HashSet::new();

    assert!(map.insert(NormalizedBuf::from_static("One Two")));
    assert!(map.insert(NormalizedBuf::from_static("SevenEight")));

    assert!(map.contains(&Normalized::from_str("One Two").unwrap().into_owned()));
    assert!(map.contains(&NormalizedBuf::from_static("One Two")));
    assert!(!map.contains(&Normalized::from_str("Two Three").unwrap().into_owned()));

    assert!(!map.remove(&Normalized::from_str("Two Three").unwrap().into_owned()));
    assert!(map.remove(&Normalized::from_static("OneTwo").to_owned()));
    assert!(!map.remove(&Normalized::from_str("One Two").unwrap().into_owned()));

    assert!(map.remove(&NormalizedBuf::from_static("Seven Eight")));
    assert!(!map.remove(&Normalized::from_static("SevenEight").to_owned()));

    assert!(map.is_empty());
}

#[test]
fn normalized_can_use_refs_as_hash_keys() {
    let one_two = Normalized::from_str("One Two").unwrap();
    let two_three = Normalized::from_str("Two Three").unwrap();
    let one_two_owned = NormalizedBuf::from_static("One Two");
    let seven_eight_owned = NormalizedBuf::from_static("Seven Eight");
    let mut map = HashSet::new();

    assert!(map.insert(Normalized::from_static("OneTwo")));
    assert!(map.insert(Normalized::from_static("SevenEight")));

    assert!(map.contains(&one_two.as_ref()));
    assert!(map.contains(&one_two_owned.as_ref()));
    assert!(!map.contains(&two_three.as_ref()));

    assert!(!map.remove(&two_three.as_ref()));
    assert!(map.remove(&Normalized::from_static("OneTwo")));
    assert!(!map.remove(&one_two.as_ref()));

    assert!(map.remove(&seven_eight_owned.as_ref()));
    assert!(!map.remove(&Normalized::from_static("SevenEight")));

    assert!(map.is_empty());
}

#[test]
fn normalized_can_use_as_btree_keys() {
    let mut map = BTreeSet::new();

    assert!(map.insert(NormalizedBuf::from_static("One Two")));
    assert!(map.insert(NormalizedBuf::from_static("SevenEight")));

    assert!(map.contains(&Normalized::from_str("One Two").unwrap().into_owned()));
    assert!(map.contains(&NormalizedBuf::from_static("One Two")));
    assert!(!map.contains(&Normalized::from_str("Two Three").unwrap().into_owned()));

    assert!(!map.remove(&Normalized::from_str("Two Three").unwrap().into_owned()));
    assert!(map.remove(&Normalized::from_static("OneTwo").to_owned()));
    assert!(!map.remove(&Normalized::from_str("One Two").unwrap().into_owned()));

    assert!(map.remove(&NormalizedBuf::from_static("Seven Eight")));
    assert!(!map.remove(&Normalized::from_static("SevenEight").to_owned()));

    assert!(map.is_empty());
}

#[test]
fn normalized_can_use_refs_as_btree_keys() {
    let one_two = Normalized::from_str("One Two").unwrap();
    let two_three = Normalized::from_str("Two Three").unwrap();
    let one_two_owned = NormalizedBuf::from_static("One Two");
    let seven_eight_owned = NormalizedBuf::from_static("Seven Eight");
    let mut map = BTreeSet::new();

    assert!(map.insert(Normalized::from_static("OneTwo")));
    assert!(map.insert(Normalized::from_static("SevenEight")));

    assert!(map.contains(&one_two.as_ref()));
    assert!(map.contains(&one_two_owned.as_ref()));
    assert!(!map.contains(&two_three.as_ref()));

    assert!(!map.remove(&two_three.as_ref()));
    assert!(map.remove(&Normalized::from_static("OneTwo")));
    assert!(!map.remove(&one_two.as_ref()));

    assert!(map.remove(&seven_eight_owned.as_ref()));
    assert!(!map.remove(&Normalized::from_static("SevenEight")));

    assert!(map.is_empty());
}
