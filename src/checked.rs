//! Constructors of braids whose content must pass a validator.
use vstd::prelude::*;
use crate::braid::{Braid, BraidRef, Validating};
use crate::rules::Validator;

verus! {

impl<V: Validator> Braid<Validating<V>> {
    /// Wraps the string if the validator accepts it; otherwise returns the
    /// validator's error.
    pub fn new(raw: String) -> (r: Result<Self, V::Error>)
        ensures
            match r {
                Ok(b) => V::is_valid(raw@) && b@ == raw@,
                Err(e) => !V::is_valid(raw@) && e == V::rejection(raw@),
            },
    {
        match V::validate(raw.as_str()) {
            Ok(()) => Ok(Braid::wrap(raw)),
            Err(e) => Err(e),
        }
    }


    /// Deserializes from the wrapped string: the same checks as [`Self::new`].
    pub fn deserialize_string(raw: String) -> (r: Result<Self, V::Error>)
        ensures
            match r {
                Ok(b) => V::is_valid(raw@) && b@ == raw@,
                Err(e) => !V::is_valid(raw@) && e == V::rejection(raw@),
            },
    {
        Self::new(raw)
    }
    /// Wraps a string that the caller knows to be valid, without checking.
    pub fn new_unchecked(raw: String) -> (r: Self)
        requires
            V::is_valid(raw@),
        ensures
            r@ == raw@,
    {
        Braid::wrap(raw)
    }

    /// Copies a valid static string into a new owned value.
    pub fn from_static(raw: &'static str) -> (r: Self)
        requires
            V::is_valid(raw@),
        ensures
            r@ == raw@,
    {
        BraidRef::<Validating<V>>::from_static(raw).to_owned()
    }
}

impl<'a, V: Validator> BraidRef<'a, Validating<V>> {
    /// Views the slice as a strongly-typed value if the validator accepts it;
    /// otherwise returns the validator's error.
    pub fn from_str(raw: &'a str) -> (r: Result<Self, V::Error>)
        ensures
            match r {
                Ok(b) => V::is_valid(raw@) && b@ == raw@,
                Err(e) => !V::is_valid(raw@) && e == V::rejection(raw@),
            },
    {
        match V::validate(raw) {
            Ok(()) => Ok(BraidRef::wrap(raw)),
            Err(e) => Err(e),
        }
    }


    /// Deserializes a borrowed value from text that outlives it, without
    /// copying: the same checks as [`Self::from_str`].
    pub fn deserialize_str(raw: &'a str) -> (r: Result<Self, V::Error>)
        ensures
            match r {
                Ok(b) => V::is_valid(raw@) && b@ == raw@,
                Err(e) => !V::is_valid(raw@) && e == V::rejection(raw@),
            },
    {
        Self::from_str(raw)
    }
    /// Views a slice that the caller knows to be valid, without checking.
    pub fn from_str_unchecked(raw: &'a str) -> (r: Self)
        requires
            V::is_valid(raw@),
        ensures
            r@ == raw@,
    {
        BraidRef::wrap(raw)
    }

    /// Views a valid static string slice as a strongly-typed value.
    pub fn from_static(raw: &'static str) -> (r: BraidRef<'static, Validating<V>>)
        requires
            V::is_valid(raw@),
        ensures
            r@ == raw@,
    {
        BraidRef::<'static, Validating<V>>::from_str_unchecked(raw)
    }
}

impl<'a, V: Validator> TryFrom<&'a str> for BraidRef<'a, Validating<V>> {
    type Error = V::Error;

    fn try_from(raw: &'a str) -> (r: Result<Self, V::Error>)
        ensures
            match r {
                Ok(b) => V::is_valid(raw@) && b@ == raw@,
                Err(e) => !V::is_valid(raw@) && e == V::rejection(raw@),
            },
    {
        Self::from_str(raw)
    }
}

impl<'a, V: Validator> vstd::std_specs::convert::TryFromSpecImpl<&'a str> for BraidRef<'a, Validating<V>> {
    open spec fn obeys_try_from_spec() -> bool {
        false
    }

    open spec fn try_from_spec(v: &'a str) -> Result<Self, V::Error> {
        arbitrary()
    }
}

impl<'a, V: Validator> TryFrom<&'a str> for Braid<Validating<V>> {
    type Error = V::Error;

    fn try_from(raw: &'a str) -> (r: Result<Self, V::Error>)
        ensures
            match r {
                Ok(b) => V::is_valid(raw@) && b@ == raw@,
                Err(e) => !V::is_valid(raw@) && e == V::rejection(raw@),
            },
    {
        Self::new(raw.to_owned())
    }
}

impl<'a, V: Validator> vstd::std_specs::convert::TryFromSpecImpl<&'a str> for Braid<Validating<V>> {
    open spec fn obeys_try_from_spec() -> bool {
        false
    }

    open spec fn try_from_spec(v: &'a str) -> Result<Self, V::Error> {
        arbitrary()
    }
}

impl<V: Validator> std::str::FromStr for Braid<Validating<V>> {
    type Err = V::Error;

    fn from_str(s: &str) -> Result<Self, Self::Err> {
        Self::new(s.to_owned())
    }
}

} // verus!
