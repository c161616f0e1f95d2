//! Sample braids of each check mode, as a user of the library declares them.
use vstd::prelude::*;
use std::borrow::Cow;
use crate::braid::{Braid, BraidRef, Normalizing, Unchecked, Validating};
use crate::rules::{Normalizer, Validator};

verus! {

/// Tag of [`BasicExampleBuf`].
#[derive(Debug, PartialEq, Eq, Hash, PartialOrd, Ord)]
pub struct BasicExampleTag;

/// A basic example of a wrapper around a [`String`].
pub type BasicExampleBuf = Braid<Unchecked<BasicExampleTag>>;

/// A borrowed reference to a basic string slice wrapper.
pub type BasicExample<'a> = BraidRef<'a, Unchecked<BasicExampleTag>>;

/// Tag of [`Orange`].
#[derive(Debug, PartialEq, Eq, Hash, PartialOrd, Ord)]
pub struct OrangeTag;

/// An unchecked wrapper.
pub type Orange = Braid<Unchecked<OrangeTag>>;

/// A borrowed reference to an [`Orange`].
pub type OrangeRef<'a> = BraidRef<'a, Unchecked<OrangeTag>>;

/// Tag of [`Element`].
#[derive(Debug, PartialEq, Eq, Hash, PartialOrd, Ord)]
pub struct ElementTag;

/// A borrowed-only wrapper around a string slice.
pub type Element<'a> = BraidRef<'a, Unchecked<ElementTag>>;

/// Tag of [`SmartUsernameBuf`].
#[derive(Debug, PartialEq, Eq, Hash, PartialOrd, Ord)]
pub struct SmartUsernameTag;

/// A user name; its borrowed form is [`SmartUsername`].
pub type SmartUsernameBuf = Braid<Unchecked<SmartUsernameTag>>;

/// A borrowed reference to a [`SmartUsernameBuf`].
pub type SmartUsername<'a> = BraidRef<'a, Unchecked<SmartUsernameTag>>;

/// The error of the sample validator and normalizer: the input holds a
/// character that takes four bytes in UTF-8.
#[derive(Debug, PartialEq, Eq)]
pub struct InvalidData;

/// Whether a character takes four bytes in UTF-8.
pub open spec fn is_wide(c: char) -> bool {
    c as u32 >= 0x10000
}

/// Whether some character of `s` takes four bytes in UTF-8.
pub open spec fn has_wide(s: Seq<char>) -> bool {
    exists|i: int| 0 <= i < s.len() && is_wide(#[trigger] s[i])
}

/// Whether some character of `s` is a space.
pub open spec fn has_space(s: Seq<char>) -> bool {
    exists|i: int| 0 <= i < s.len() && #[trigger] s[i] == ' '
}

/// `s` with every space removed.
pub open spec fn without_spaces(s: Seq<char>) -> Seq<char>
    decreases s.len(),
{
    if s.len() == 0 {
        Seq::empty()
    } else if s.last() == ' ' {
        without_spaces(s.drop_last())
    } else {
        without_spaces(s.drop_last()).push(s.last())
    }
}

proof fn lemma_without_spaces(s: Seq<char>)
    ensures
        !has_space(without_spaces(s)),
        !has_wide(s) ==> !has_wide(without_spaces(s)),
        !has_space(s) ==> without_spaces(s) == s,
    decreases s.len(),
{
    if s.len() > 0 {
        let p = s.drop_last();
        lemma_without_spaces(p);
        assert(!has_wide(s) ==> !has_wide(p)) by {
            if !has_wide(s) {
                assert forall|i: int| 0 <= i < p.len() implies !is_wide(#[trigger] p[i]) by {
                    assert(p[i] == s[i]);
                }
            }
        }
        assert(!has_space(s) ==> !has_space(p)) by {
            if !has_space(s) {
                assert forall|i: int| 0 <= i < p.len() implies #[trigger] p[i] != ' ' by {
                    assert(p[i] == s[i]);
                }
            }
        }
        if !has_space(s) {
            assert(s[s.len() - 1] != ' ');
            assert(s =~= p.push(s.last()));
        }
        if !has_wide(s) {
            assert(!is_wide(s[s.len() - 1]));
        }
    }
}

/// Scans the string for a character that takes four bytes in UTF-8.
pub fn contains_wide(s: &str) -> (r: bool)
    ensures
        r == has_wide(s@),
{
    let n = s.unicode_len();
    let mut i: usize = 0;
    while i < n
        invariant
            n == s@.len(),
            i <= n,
            forall|j: int| 0 <= j < i ==> !is_wide(#[trigger] s@[j]),
        decreases n - i,
    {
        if s.get_char(i) as u32 >= 0x10000 {
            return true;
        }
        i = i + 1;
    }
    false
}

/// Scans the string for a space.
pub fn contains_space(s: &str) -> (r: bool)
    ensures
        r == has_space(s@),
{
    let n = s.unicode_len();
    let mut i: usize = 0;
    while i < n
        invariant
            n == s@.len(),
            i <= n,
            forall|j: int| 0 <= j < i ==> #[trigger] s@[j] != ' ',
        decreases n - i,
    {
        if s.get_char(i) == ' ' {
            return true;
        }
        i = i + 1;
    }
    false
}

/// Copies the string without its spaces.
pub fn remove_spaces(s: &str) -> (r: String)
    ensures
        r@ == without_spaces(s@),
{
    let n = s.unicode_len();
    let mut out = String::new();
    let mut i: usize = 0;
    while i < n
        invariant
            n == s@.len(),
            i <= n,
            out@ == without_spaces(s@.subrange(0, i as int)),
        decreases n - i,
    {
        let c = s.get_char(i);
        proof {
            assert(s@.subrange(0, i + 1).drop_last() =~= s@.subrange(0, i as int));
        }
        if c != ' ' {
            let one = s.substring_char(i, i + 1);
            out.append(one);
            proof {
                assert(one@ =~= seq![c]);
                assert(out@ =~= without_spaces(s@.subrange(0, i as int)).push(c));
            }
        }
        i = i + 1;
    }
    assert(s@.subrange(0, n as int) =~= s@);
    out
}

/// The sample validator: accepts strings with no four-byte character.
#[derive(Debug, PartialEq, Eq, Hash, PartialOrd, Ord)]
pub struct NarrowRules;

/// A validated wrapper.
pub type ValidatedBuf = Braid<Validating<NarrowRules>>;

/// A borrowed reference to a [`ValidatedBuf`].
pub type Validated<'a> = BraidRef<'a, Validating<NarrowRules>>;

impl Validator for NarrowRules {
    type Error = InvalidData;

    open spec fn is_valid(raw: Seq<char>) -> bool {
        !has_wide(raw)
    }

    open spec fn rejection(raw: Seq<char>) -> InvalidData {
        InvalidData
    }

    fn validate(raw: &str) -> (r: Result<(), InvalidData>) {
        if contains_wide(raw) {
            Err(InvalidData)
        } else {
            Ok(())
        }
    }
}

/// The sample normalizer: rejects four-byte characters and removes spaces.
#[derive(Debug, PartialEq, Eq, Hash, PartialOrd, Ord)]
pub struct SpacelessRules;

/// A normalized wrapper.
pub type NormalizedBuf = Braid<Normalizing<SpacelessRules>>;

/// A borrowed reference to a [`NormalizedBuf`].
pub type Normalized<'a> = BraidRef<'a, Normalizing<SpacelessRules>>;

impl Validator for SpacelessRules {
    type Error = InvalidData;

    open spec fn is_valid(raw: Seq<char>) -> bool {
        !has_wide(raw) && !has_space(raw)
    }

    open spec fn rejection(raw: Seq<char>) -> InvalidData {
        InvalidData
    }

    fn validate(raw: &str) -> (r: Result<(), InvalidData>) {
        if contains_wide(raw) || contains_space(raw) {
            Err(InvalidData)
        } else {
            Ok(())
        }
    }
}

impl Normalizer for SpacelessRules {
    open spec fn is_normalizable(raw: Seq<char>) -> bool {
        !has_wide(raw)
    }

    open spec fn normal_form(raw: Seq<char>) -> Seq<char> {
        without_spaces(raw)
    }

    open spec fn normalize_rejection(raw: Seq<char>) -> InvalidData {
        InvalidData
    }

    proof fn lemma_valid_is_canonical(raw: Seq<char>) {
        lemma_without_spaces(raw);
    }

    proof fn lemma_normal_form_is_valid(raw: Seq<char>) {
        lemma_without_spaces(raw);
    }

    fn normalize<'a>(raw: &'a str) -> (r: Result<Cow<'a, str>, InvalidData>) {
        proof {
            lemma_without_spaces(raw@);
        }
        if contains_wide(raw) {
            Err(InvalidData)
        } else if contains_space(raw) {
            Ok(Cow::Owned(remove_spaces(raw)))
        } else {
            Ok(Cow::Borrowed(raw))
        }
    }
}

/// Why a string is not a user name.
#[derive(Debug, PartialEq, Eq)]
pub enum InvalidUsername {
    EmptyString,
    Reserved,
}

/// The rules of a user name: non-empty, and not `root` in any case.
#[derive(Debug, PartialEq, Eq, Hash, PartialOrd, Ord)]
pub struct UsernameRules;

/// A validated user name.
pub type UsernameBuf = Braid<Validating<UsernameRules>>;

/// A borrowed reference to a [`UsernameBuf`].
pub type Username<'a> = BraidRef<'a, Validating<UsernameRules>>;

/// Whether `s` is `root`, ignoring ASCII case.
pub open spec fn is_root(s: Seq<char>) -> bool {
    &&& s.len() == 4
    &&& (s[0] == 'r' || s[0] == 'R')
    &&& (s[1] == 'o' || s[1] == 'O')
    &&& (s[2] == 'o' || s[2] == 'O')
    &&& (s[3] == 't' || s[3] == 'T')
}

impl Validator for UsernameRules {
    type Error = InvalidUsername;

    open spec fn is_valid(raw: Seq<char>) -> bool {
        raw.len() > 0 && !is_root(raw)
    }

    open spec fn rejection(raw: Seq<char>) -> InvalidUsername {
        if raw.len() == 0 {
            InvalidUsername::EmptyString
        } else {
            InvalidUsername::Reserved
        }
    }

    fn validate(raw: &str) -> (r: Result<(), InvalidUsername>) {
        if raw.is_empty() {
            return Err(InvalidUsername::EmptyString);
        }
        if raw.unicode_len() == 4 {
            let a = raw.get_char(0);
            let b = raw.get_char(1);
            let c = raw.get_char(2);
            let d = raw.get_char(3);
            if (a == 'r' || a == 'R') && (b == 'o' || b == 'O') && (c == 'o' || c == 'O') && (d
                == 't' || d == 'T') {
                return Err(InvalidUsername::Reserved);
            }
        }
        Ok(())
    }
}

/// A minimal string type of its own, with the conversions that a wrapped
/// representation needs: from `String`, `&str` and `Box<str>`, to `String`,
/// and a view as `str`.
#[derive(Clone, Debug, Hash, PartialEq, Eq, PartialOrd, Ord)]
pub struct MinimalString(String);

impl View for MinimalString {
    type V = Seq<char>;

    closed spec fn view(&self) -> Seq<char> {
        self.0@
    }
}

impl MinimalString {
    /// The content as a string slice.
    pub fn as_str(&self) -> (r: &str)
        ensures
            r@ == self@,
    {
        self.0.as_str()
    }

    /// Unwraps the content.
    pub fn into_string(self) -> (r: String)
        ensures
            r@ == self@,
    {
        self.0
    }
}

impl From<String> for MinimalString {
    fn from(s: String) -> (r: Self)
        ensures
            r@ == s@,
    {
        MinimalString(s)
    }
}

impl vstd::std_specs::convert::FromSpecImpl<String> for MinimalString {
    open spec fn obeys_from_spec() -> bool {
        false
    }

    open spec fn from_spec(v: String) -> Self {
        arbitrary()
    }
}

impl<'a> From<&'a str> for MinimalString {
    fn from(s: &'a str) -> (r: Self)
        ensures
            r@ == s@,
    {
        MinimalString(s.to_owned())
    }
}

impl<'a> vstd::std_specs::convert::FromSpecImpl<&'a str> for MinimalString {
    open spec fn obeys_from_spec() -> bool {
        false
    }

    open spec fn from_spec(v: &'a str) -> Self {
        arbitrary()
    }
}

impl From<Box<str>> for MinimalString {
    fn from(s: Box<str>) -> (r: Self)
        ensures
            r@ == s@,
    {
        MinimalString((&*s).to_owned())
    }
}

impl vstd::std_specs::convert::FromSpecImpl<Box<str>> for MinimalString {
    open spec fn obeys_from_spec() -> bool {
        false
    }

    open spec fn from_spec(v: Box<str>) -> Self {
        arbitrary()
    }
}

} // verus!
