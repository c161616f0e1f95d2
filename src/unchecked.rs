//! Constructors of braids whose content is not checked.
use vstd::prelude::*;
use std::marker::PhantomData;
use crate::braid::{Braid, BraidRef, Unchecked};

verus! {

impl<T> Braid<Unchecked<T>> {
    /// Wraps any string; construction cannot fail.
    pub fn new(raw: String) -> (r: Self)
        ensures
            r@ == raw@,
    {
        Braid::wrap(raw)
    }

    /// Deserializes from the wrapped string; any string is accepted.
    pub fn deserialize_string(raw: String) -> (r: Self)
        ensures
            r@ == raw@,
    {
        Self::new(raw)
    }

    /// Copies a static string into a new owned value.
    pub fn from_static(raw: &'static str) -> (r: Self)
        ensures
            r@ == raw@,
    {
        BraidRef::<Unchecked<T>>::from_str(raw).to_owned()
    }
}

impl<'a, T> BraidRef<'a, Unchecked<T>> {
    /// Views the string slice as a strongly-typed value; the result lives no
    /// longer than the slice.
    pub fn from_str(raw: &'a str) -> (r: Self)
        ensures
            r@ == raw@,
    {
        BraidRef::wrap(raw)
    }

    /// Deserializes a borrowed value from text that outlives it, without
    /// copying; any text is accepted.
    pub fn deserialize_str(raw: &'a str) -> (r: Self)
        ensures
            r@ == raw@,
    {
        Self::from_str(raw)
    }

    /// Views a static string slice as a strongly-typed value.
    pub fn from_static(raw: &'static str) -> (r: BraidRef<'static, Unchecked<T>>)
        ensures
            r@ == raw@,
    {
        BraidRef::<'static, Unchecked<T>>::from_str(raw)
    }
}

impl<T> From<String> for Braid<Unchecked<T>> {
    fn from(raw: String) -> (r: Self)
        ensures
            r@ == raw@,
    {
        Self::new(raw)
    }
}

impl<T> vstd::std_specs::convert::FromSpecImpl<String> for Braid<Unchecked<T>> {
    open spec fn obeys_from_spec() -> bool {
        false
    }

    open spec fn from_spec(v: String) -> Self {
        arbitrary()
    }
}

impl<'a, T> From<&'a str> for Braid<Unchecked<T>> {
    fn from(raw: &'a str) -> (r: Self)
        ensures
            r@ == raw@,
    {
        Self::new(raw.to_owned())
    }
}

impl<'a, T> vstd::std_specs::convert::FromSpecImpl<&'a str> for Braid<Unchecked<T>> {
    open spec fn obeys_from_spec() -> bool {
        false
    }

    open spec fn from_spec(v: &'a str) -> Self {
        arbitrary()
    }
}

impl<'a, T> From<&'a str> for BraidRef<'a, Unchecked<T>> {
    fn from(raw: &'a str) -> (r: Self)
        ensures
            r@ == raw@,
    {
        Self::from_str(raw)
    }
}

impl<'a, T> vstd::std_specs::convert::FromSpecImpl<&'a str> for BraidRef<'a, Unchecked<T>> {
    open spec fn obeys_from_spec() -> bool {
        false
    }

    open spec fn from_spec(v: &'a str) -> Self {
        arbitrary()
    }
}

impl<T> std::str::FromStr for Braid<Unchecked<T>> {
    type Err = std::convert::Infallible;

    fn from_str(s: &str) -> Result<Self, Self::Err> {
        Ok(Self::new(s.to_owned()))
    }
}

} // verus!
