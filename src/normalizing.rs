//! Constructors of braids whose content is brought into normal form.
use vstd::prelude::*;
use std::borrow::Cow;
use crate::braid::{Braid, BraidCow, BraidRef, Normalizing};
use crate::rules::{Normalizer, Validator};

verus! {

impl<N: Normalizer> Braid<Normalizing<N>> {
    /// Normalizes the string and wraps its normal form; fails with the
    /// normalizer's error when the input cannot be normalized.
    pub fn new(raw: String) -> (r: Result<Self, N::Error>)
        ensures
            match r {
                Ok(b) => N::is_normalizable(raw@) && b@ == N::normal_form(raw@),
                Err(e) => !N::is_normalizable(raw@) && e == N::normalize_rejection(raw@),
            },
    {
        let normal: String = match N::normalize(raw.as_str()) {
            Ok(Cow::Borrowed(_)) => raw,
            Ok(Cow::Owned(s)) => s,
            Err(e) => {
                return Err(e);
            },
        };
        proof {
            N::lemma_normal_form_is_valid(raw@);
        }
        Ok(Braid::wrap(normal))
    }


    /// Deserializes from the wrapped string: normalizes as [`Self::new`].
    pub fn deserialize_string(raw: String) -> (r: Result<Self, N::Error>)
        ensures
            match r {
                Ok(b) => N::is_normalizable(raw@) && b@ == N::normal_form(raw@),
                Err(e) => !N::is_normalizable(raw@) && e == N::normalize_rejection(raw@),
            },
    {
        Self::new(raw)
    }
    /// Wraps a string that the caller knows to be valid and in normal form,
    /// without checking.
    pub fn new_unchecked(raw: String) -> (r: Self)
        requires
            N::is_valid(raw@),
        ensures
            r@ == raw@,
    {
        Braid::wrap(raw)
    }

    /// Normalizes a static string into a new owned value.
    pub fn from_static(raw: &'static str) -> (r: Self)
        requires
            N::is_normalizable(raw@),
        ensures
            r@ == N::normal_form(raw@),
    {
        match BraidRef::<Normalizing<N>>::from_str(raw) {
            Ok(c) => c.into_owned(),
            Err(_) => {
                proof {
                    assert(false);
                }
                Braid::wrap(raw.to_owned())
            },
        }
    }
}

impl<'a, N: Normalizer> BraidRef<'a, Normalizing<N>> {
    /// Normalizes the slice: borrows it when it is already canonical, and
    /// owns the rewritten normal form otherwise.
    pub fn from_str(raw: &'a str) -> (r: Result<BraidCow<'a, Normalizing<N>>, N::Error>)
        ensures
            match r {
                Ok(c) => N::is_normalizable(raw@) && c@ == N::normal_form(raw@),
                Err(e) => !N::is_normalizable(raw@) && e == N::normalize_rejection(raw@),
            },
            N::is_valid(raw@) ==> r matches Ok(BraidCow::Borrowed(_)),
            r matches Ok(BraidCow::Borrowed(b)) ==> b@ == raw@,
    {
        let cow = N::normalize(raw);
        match cow {
            Ok(Cow::Borrowed(b)) => {
                proof {
                    N::lemma_normal_form_is_valid(raw@);
                }
                Ok(BraidCow::Borrowed(BraidRef::wrap(b)))
            },
            Ok(Cow::Owned(s)) => {
                proof {
                    N::lemma_normal_form_is_valid(raw@);
                }
                Ok(BraidCow::Owned(Braid::wrap(s)))
            },
            Err(e) => Err(e),
        }
    }

    /// Views the slice as a strongly-typed value only if it is valid and
    /// already in normal form; never rewrites it.
    pub fn from_normalized_str(raw: &'a str) -> (r: Result<Self, N::Error>)
        ensures
            match r {
                Ok(b) => N::is_valid(raw@) && b@ == raw@,
                Err(e) => !N::is_valid(raw@) && e == N::rejection(raw@),
            },
    {
        match N::validate(raw) {
            Ok(()) => Ok(BraidRef::wrap(raw)),
            Err(e) => Err(e),
        }
    }


    /// Deserializes a borrowed value from text that outlives it, without
    /// copying. A borrowed value cannot hold a rewritten string, so the text
    /// must already be in normal form, as for [`Self::from_normalized_str`].
    pub fn deserialize_str(raw: &'a str) -> (r: Result<Self, N::Error>)
        ensures
            match r {
                Ok(b) => N::is_valid(raw@) && b@ == raw@,
                Err(e) => !N::is_valid(raw@) && e == N::rejection(raw@),
            },
    {
        Self::from_normalized_str(raw)
    }
    /// Views a slice that the caller knows to be valid and in normal form,
    /// without checking.
    pub fn from_str_unchecked(raw: &'a str) -> (r: Self)
        requires
            N::is_valid(raw@),
        ensures
            r@ == raw@,
    {
        BraidRef::wrap(raw)
    }

    /// Views a static slice that is already in normal form.
    pub fn from_static(raw: &'static str) -> (r: BraidRef<'static, Normalizing<N>>)
        requires
            N::is_valid(raw@),
        ensures
            r@ == raw@,
    {
        BraidRef::<'static, Normalizing<N>>::from_str_unchecked(raw)
    }
}

impl<'a, N: Normalizer> TryFrom<&'a str> for BraidRef<'a, Normalizing<N>> {
    type Error = N::Error;

    fn try_from(raw: &'a str) -> (r: Result<Self, N::Error>)
        ensures
            match r {
                Ok(b) => N::is_valid(raw@) && b@ == raw@,
                Err(e) => !N::is_valid(raw@) && e == N::rejection(raw@),
            },
    {
        Self::from_normalized_str(raw)
    }
}

impl<'a, N: Normalizer> vstd::std_specs::convert::TryFromSpecImpl<&'a str> for BraidRef<'a, Normalizing<N>> {
    open spec fn obeys_try_from_spec() -> bool {
        false
    }

    open spec fn try_from_spec(v: &'a str) -> Result<Self, N::Error> {
        arbitrary()
    }
}

impl<'a, N: Normalizer> TryFrom<&'a str> for Braid<Normalizing<N>> {
    type Error = N::Error;

    fn try_from(raw: &'a str) -> (r: Result<Self, N::Error>)
        ensures
            match r {
                Ok(b) => N::is_normalizable(raw@) && b@ == N::normal_form(raw@),
                Err(e) => !N::is_normalizable(raw@) && e == N::normalize_rejection(raw@),
            },
    {
        Self::new(raw.to_owned())
    }
}

impl<'a, N: Normalizer> vstd::std_specs::convert::TryFromSpecImpl<&'a str> for Braid<Normalizing<N>> {
    open spec fn obeys_try_from_spec() -> bool {
        false
    }

    open spec fn try_from_spec(v: &'a str) -> Result<Self, N::Error> {
        arbitrary()
    }
}

impl<N: Normalizer> std::str::FromStr for Braid<Normalizing<N>> {
    type Err = N::Error;

    fn from_str(s: &str) -> Result<Self, Self::Err> {
        Self::new(s.to_owned())
    }
}

} // verus!
