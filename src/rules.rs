//! The contracts that validators and normalizers fulfil.
use vstd::prelude::*;
use std::borrow::Cow;

verus! {

/// A validator decides whether a raw string is acceptable content.
///
/// Where the type is also a [`Normalizer`], validation accepts exactly the
/// strings that are valid and already in normal form.
pub trait Validator {
    /// The error produced when the string is invalid.
    type Error;

    /// The strings this validator accepts.
    spec fn is_valid(raw: Seq<char>) -> bool;

    /// The error reported for a rejected string.
    spec fn rejection(raw: Seq<char>) -> Self::Error;

    /// Validates a string according to a predetermined set of rules.
    fn validate(raw: &str) -> (r: Result<(), Self::Error>)
        ensures
            r == (if Self::is_valid(raw@) {
                Ok::<(), Self::Error>(())
            } else {
                Err(Self::rejection(raw@))
            }),
    ;
}

/// A normalizer rewrites acceptable input into its canonical form.
///
/// An implementation proves that its validation accepts exactly the strings
/// that are already canonical, and that every normal form is canonical.
pub trait Normalizer: Validator {
    /// The strings that can be brought into normal form.
    spec fn is_normalizable(raw: Seq<char>) -> bool;

    /// The normal form of a normalizable string.
    spec fn normal_form(raw: Seq<char>) -> Seq<char>;

    /// The error reported for a string that cannot be normalized.
    spec fn normalize_rejection(raw: Seq<char>) -> Self::Error;

    /// A valid string is normalizable and is its own normal form.
    proof fn lemma_valid_is_canonical(raw: Seq<char>)
        requires
            Self::is_valid(raw),
        ensures
            Self::is_normalizable(raw),
            Self::normal_form(raw) == raw,
    ;

    /// The normal form of a normalizable string is valid.
    proof fn lemma_normal_form_is_valid(raw: Seq<char>)
        requires
            Self::is_normalizable(raw),
        ensures
            Self::is_valid(Self::normal_form(raw)),
    ;

    /// Validates and normalizes the input, borrowing it when it is already
    /// in normal form.
    fn normalize<'a>(raw: &'a str) -> (r: Result<Cow<'a, str>, Self::Error>)
        ensures
            Self::is_normalizable(raw@) ==> (r matches Ok(c) && c@ == Self::normal_form(raw@)),
            !Self::is_normalizable(raw@) ==> r == Err::<Cow<'a, str>, Self::Error>(
                Self::normalize_rejection(raw@),
            ),
            r matches Ok(Cow::Borrowed(b)) ==> b@ == raw@,
            Self::is_valid(raw@) ==> r matches Ok(Cow::Borrowed(_)),
    ;
}

} // verus!
