//! A normalized braid: a non-empty string in lowercase.
//!
//! Because the content is normalized, the borrowed form is not a drop-in for
//! a plain `str` key: two different raw strings may have the same normal form.
use vstd::prelude::*;
use std::borrow::Cow;
use crate::braid::{Braid, BraidRef, Normalizing};
use crate::rules::{Normalizer, Validator};

verus! {

/// Why a string is not (and cannot become) a lowercase string.
#[derive(Debug, PartialEq, Eq)]
pub enum InvalidString {
    EmptyString,
    InvalidCharacter,
}

impl InvalidString {
    /// The text that describes the error.
    pub fn message(&self) -> (r: &'static str)
        ensures
            r@ == match self {
                InvalidString::EmptyString => "string cannot be empty"@,
                InvalidString::InvalidCharacter => "string contains invalid uppercase character"@,
            },
    {
        match self {
            InvalidString::EmptyString => "string cannot be empty",
            InvalidString::InvalidCharacter => "string contains invalid uppercase character",
        }
    }
}

/// The rules of a lowercase string: non-empty, with no uppercase character.
#[derive(Debug, PartialEq, Eq, Hash, PartialOrd, Ord)]
pub struct LowerRules;

/// A non-empty [`String`] normalized to lowercase.
pub type LowerString = Braid<Normalizing<LowerRules>>;

/// A borrowed reference to a non-empty, lowercase string.
pub type LowerStr<'a> = BraidRef<'a, Normalizing<LowerRules>>;

/// Whether a character has the Unicode `Uppercase` property.
pub uninterp spec fn is_upper(c: char) -> bool;

/// The Unicode lowercase mapping of a string.
pub uninterp spec fn lower_of(s: Seq<char>) -> Seq<char>;

/// Relies on `char::is_uppercase`: whether the character has the Unicode
/// `Uppercase` property.
#[verifier::external_body]
fn char_is_uppercase(c: char) -> (r: bool)
    ensures
        r == is_upper(c),
{
    c.is_uppercase()
}

/// Relies on `str::to_lowercase`: the lowercase mapping of the string, which
/// depends on its characters alone.
#[verifier::external_body]
fn to_lowercase(s: &str) -> (r: String)
    ensures
        r@ == lower_of(s@),
{
    s.to_lowercase()
}

/// Whether some character of `s` is uppercase.
pub open spec fn has_upper(s: Seq<char>) -> bool {
    exists|i: int| 0 <= i < s.len() && is_upper(#[trigger] s[i])
}

/// Scans the string for an uppercase character.
pub fn contains_uppercase(s: &str) -> (r: bool)
    ensures
        r == has_upper(s@),
{
    let n = s.unicode_len();
    let mut i: usize = 0;
    while i < n
        invariant
            n == s@.len(),
            i <= n,
            forall|j: int| 0 <= j < i ==> !is_upper(#[trigger] s@[j]),
        decreases n - i,
    {
        if char_is_uppercase(s.get_char(i)) {
            return true;
        }
        i = i + 1;
    }
    false
}

impl Validator for LowerRules {
    type Error = InvalidString;

    open spec fn is_valid(raw: Seq<char>) -> bool {
        raw.len() > 0 && !has_upper(raw)
    }

    open spec fn rejection(raw: Seq<char>) -> InvalidString {
        if raw.len() == 0 {
            InvalidString::EmptyString
        } else {
            InvalidString::InvalidCharacter
        }
    }

    fn validate(raw: &str) -> (r: Result<(), InvalidString>) {
        if raw.is_empty() {
            Err(InvalidString::EmptyString)
        } else if contains_uppercase(raw) {
            Err(InvalidString::InvalidCharacter)
        } else {
            Ok(())
        }
    }
}

impl Normalizer for LowerRules {
    open spec fn is_normalizable(raw: Seq<char>) -> bool {
        raw.len() > 0 && (!has_upper(raw) || Self::is_valid(lower_of(raw)))
    }

    open spec fn normal_form(raw: Seq<char>) -> Seq<char> {
        if has_upper(raw) {
            lower_of(raw)
        } else {
            raw
        }
    }

    open spec fn normalize_rejection(raw: Seq<char>) -> InvalidString {
        if raw.len() == 0 {
            InvalidString::EmptyString
        } else {
            Self::rejection(lower_of(raw))
        }
    }

    proof fn lemma_valid_is_canonical(raw: Seq<char>) {
    }

    proof fn lemma_normal_form_is_valid(raw: Seq<char>) {
    }

    /// Lowercases input that holds an uppercase character; the result must
    /// itself be a valid lowercase string.
    fn normalize<'a>(raw: &'a str) -> (r: Result<Cow<'a, str>, InvalidString>) {
        if raw.is_empty() {
            Err(InvalidString::EmptyString)
        } else if contains_uppercase(raw) {
            let lower = to_lowercase(raw);
            match Self::validate(lower.as_str()) {
                Ok(()) => Ok(Cow::Owned(lower)),
                Err(e) => Err(e),
            }
        } else {
            Ok(Cow::Borrowed(raw))
        }
    }
}

} // verus!
