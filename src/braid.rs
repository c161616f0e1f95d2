//! The owned and borrowed wrapper pair, generic over how content is checked.
//!
//! `Braid<M>` owns its content, `BraidRef<'a, M>` views content owned
//! elsewhere, and `BraidBox<M>` holds it in a boxed slice. The check mode `M`
//! is [`Unchecked`], [`Validating`] or [`Normalizing`]; every value of the three
//! types holds content that the mode accepts.
use vstd::prelude::*;
use std::borrow::Cow;
use std::marker::PhantomData;
use crate::rules::{Normalizer, Validator};
use crate::text::str_eq;

verus! {

/// How the content of a braid is checked.
pub trait Mode {
    /// The content that values of this mode may hold.
    spec fn accepts(raw: Seq<char>) -> bool;
}

/// Any string is valid content; construction cannot fail.
///
/// The tag `T` only distinguishes one domain from another.
#[derive(Debug, PartialEq, Eq, Hash, PartialOrd, Ord)]
pub struct Unchecked<T> {
    tag: PhantomData<T>,
}

/// Content must pass the validator `V`.
#[derive(Debug, PartialEq, Eq, Hash, PartialOrd, Ord)]
pub struct Validating<V> {
    validator: PhantomData<V>,
}

/// Content is brought into the normal form of `N`.
#[derive(Debug, PartialEq, Eq, Hash, PartialOrd, Ord)]
pub struct Normalizing<N> {
    normalizer: PhantomData<N>,
}

impl<T> Mode for Unchecked<T> {
    open spec fn accepts(raw: Seq<char>) -> bool {
        true
    }
}

impl<V: Validator> Mode for Validating<V> {
    open spec fn accepts(raw: Seq<char>) -> bool {
        V::is_valid(raw)
    }
}

impl<N: Normalizer> Mode for Normalizing<N> {
    open spec fn accepts(raw: Seq<char>) -> bool {
        N::is_valid(raw)
    }
}

/// The owned form: a string it exclusively owns.
#[derive(Debug, Hash, Eq, PartialOrd, Ord)]
pub struct Braid<M: Mode> {
    raw: String,
    mode: PhantomData<M>,
}

/// The borrowed form: a view of string content owned elsewhere.
#[derive(Debug, Hash, Eq, PartialOrd, Ord)]
pub struct BraidRef<'a, M: Mode> {
    raw: &'a str,
    mode: PhantomData<M>,
}

/// The borrowed form in a box of its own: the content without spare capacity.
#[derive(Debug, Hash, Eq, PartialOrd, Ord)]
pub struct BraidBox<M: Mode> {
    raw: Box<str>,
    mode: PhantomData<M>,
}

impl<M: Mode> View for Braid<M> {
    type V = Seq<char>;

    closed spec fn view(&self) -> Seq<char> {
        self.raw@
    }
}

impl<'a, M: Mode> View for BraidRef<'a, M> {
    type V = Seq<char>;

    closed spec fn view(&self) -> Seq<char> {
        self.raw@
    }
}

impl<M: Mode> View for BraidBox<M> {
    type V = Seq<char>;

    closed spec fn view(&self) -> Seq<char> {
        self.raw@
    }
}

/// Relies on `String::into_boxed_str`: the box holds the same characters.
#[verifier::external_body]
fn boxed_str(s: String) -> (r: Box<str>)
    ensures
        r@ == s@,
{
    s.into_boxed_str()
}

/// Relies on `str::into_string` of a boxed slice: the same characters, moved
/// into a `String` without copying.
#[verifier::external_body]
fn unboxed_str(b: Box<str>) -> (r: String)
    ensures
        r@ == b@,
{
    b.into_string()
}

/// Relies on the `Debug` formatting of `str`: the quoted, escaped text.
#[verifier::external_body]
fn debug_str(s: &str) -> (r: String)
    ensures
        r@ == debug_text(s@),
{
    format!("{:?}", s)
}

/// What `Debug` prints for a string slice.
pub uninterp spec fn debug_text(s: Seq<char>) -> Seq<char>;

impl<M: Mode> Braid<M> {
    #[verifier::type_invariant]
    closed spec fn inv(self) -> bool {
        M::accepts(self.raw@)
    }

    /// Wraps content that the mode accepts.
    pub(crate) fn wrap(raw: String) -> (r: Self)
        requires
            M::accepts(raw@),
        ensures
            r@ == raw@,
    {
        Braid { raw, mode: PhantomData }
    }

    /// The content as a string slice.
    pub fn as_str(&self) -> (r: &str)
        ensures
            r@ == self@,
            M::accepts(r@),
    {
        proof {
            use_type_invariant(self);
        }
        self.raw.as_str()
    }

    /// The borrowed view of this value, without copying.
    pub fn as_ref(&self) -> (r: BraidRef<'_, M>)
        ensures
            r@ == self@,
    {
        proof {
            use_type_invariant(self);
        }
        BraidRef { raw: self.raw.as_str(), mode: PhantomData }
    }

    /// Unwraps the underlying string.
    pub fn take(self) -> (r: String)
        ensures
            r@ == self@,
            M::accepts(r@),
    {
        proof {
            use_type_invariant(&self);
        }
        self.raw
    }

    /// Converts this value into its boxed borrowed form, dropping any
    /// excess capacity.
    pub fn into_boxed_ref(self) -> (r: BraidBox<M>)
        ensures
            r@ == self@,
    {
        proof {
            use_type_invariant(&self);
        }
        let raw = boxed_str(self.raw);
        BraidBox { raw, mode: PhantomData }
    }

    /// The text that `Display` shows: the content itself.
    pub fn display_string(&self) -> (r: String)
        ensures
            r@ == self@,
    {
        self.raw.clone()
    }

    /// The text that `Debug` shows: the content, quoted and escaped.
    pub fn debug_string(&self) -> (r: String)
        ensures
            r@ == debug_text(self@),
    {
        debug_str(self.raw.as_str())
    }

    /// The form in which the value is serialized: its content.
    pub fn serialize_str(&self) -> (r: &str)
        ensures
            r@ == self@,
            M::accepts(r@),
    {
        proof {
            use_type_invariant(self);
        }
        self.raw.as_str()
    }
}

impl<'a, M: Mode> BraidRef<'a, M> {
    #[verifier::type_invariant]
    closed spec fn inv(self) -> bool {
        M::accepts(self.raw@)
    }

    /// Views content that the mode accepts.
    pub(crate) fn wrap(raw: &'a str) -> (r: Self)
        requires
            M::accepts(raw@),
        ensures
            r@ == raw@,
    {
        BraidRef { raw, mode: PhantomData }
    }

    /// The content as a string slice, with the lifetime of the viewed data.
    pub fn as_str(&self) -> (r: &'a str)
        ensures
            r@ == self@,
            M::accepts(r@),
    {
        proof {
            use_type_invariant(self);
        }
        self.raw
    }

    /// Copies the content into an owned value.
    pub fn to_owned(&self) -> (r: Braid<M>)
        ensures
            r@ == self@,
    {
        proof {
            use_type_invariant(self);
        }
        Braid::wrap(self.raw.to_owned())
    }

    /// The text that `Display` shows: the content itself.
    pub fn display_string(&self) -> (r: String)
        ensures
            r@ == self@,
    {
        self.raw.to_owned()
    }

    /// The text that `Debug` shows: the content, quoted and escaped.
    pub fn debug_string(&self) -> (r: String)
        ensures
            r@ == debug_text(self@),
    {
        debug_str(self.raw)
    }

    /// The form in which the value is serialized: its content.
    pub fn serialize_str(&self) -> (r: &'a str)
        ensures
            r@ == self@,
    {
        self.raw
    }
}

impl<M: Mode> BraidBox<M> {
    #[verifier::type_invariant]
    closed spec fn inv(self) -> bool {
        M::accepts(self.raw@)
    }

    /// The borrowed view of the boxed content.
    pub fn as_ref(&self) -> (r: BraidRef<'_, M>)
        ensures
            r@ == self@,
    {
        proof {
            use_type_invariant(self);
        }
        BraidRef { raw: &*self.raw, mode: PhantomData }
    }

    /// The content as a string slice.
    pub fn as_str(&self) -> (r: &str)
        ensures
            r@ == self@,
    {
        &*self.raw
    }

    /// Converts the boxed form into the owned form without copying; the
    /// content already passed the checks of the mode, so none is re-run.
    pub fn into_owned(self) -> (r: Braid<M>)
        ensures
            r@ == self@,
    {
        proof {
            use_type_invariant(&self);
        }
        Braid::wrap(unboxed_str(self.raw))
    }
}

impl<M: Mode> Clone for Braid<M> {
    fn clone(&self) -> (r: Self)
        ensures
            r@ == self@,
    {
        proof {
            use_type_invariant(self);
        }
        Braid::wrap(self.raw.clone())
    }
}

impl<'a, M: Mode> Clone for BraidRef<'a, M> {
    fn clone(&self) -> (r: Self)
        ensures
            r@ == self@,
    {
        *self
    }
}

impl<'a, M: Mode> Copy for BraidRef<'a, M> {

}

impl<M: Mode> Clone for BraidBox<M> {
    fn clone(&self) -> (r: Self)
        ensures
            r@ == self@,
    {
        proof {
            use_type_invariant(self);
        }
        let raw = boxed_str((&*self.raw).to_owned());
        BraidBox { raw, mode: PhantomData }
    }
}

impl<M: Mode> PartialEq for Braid<M> {
    fn eq(&self, other: &Self) -> (r: bool) {
        self.raw == other.raw
    }
}

impl<M: Mode> vstd::std_specs::cmp::PartialEqSpecImpl for Braid<M> {
    open spec fn obeys_eq_spec() -> bool {
        true
    }

    open spec fn eq_spec(&self, other: &Self) -> bool {
        self@ == other@
    }
}

impl<'a, M: Mode> PartialEq for BraidRef<'a, M> {
    fn eq(&self, other: &Self) -> (r: bool) {
        str_eq(self.raw, other.raw)
    }
}

impl<'a, M: Mode> vstd::std_specs::cmp::PartialEqSpecImpl for BraidRef<'a, M> {
    open spec fn obeys_eq_spec() -> bool {
        true
    }

    open spec fn eq_spec(&self, other: &Self) -> bool {
        self@ == other@
    }
}

impl<M: Mode> PartialEq for BraidBox<M> {
    fn eq(&self, other: &Self) -> (r: bool) {
        str_eq(&*self.raw, &*other.raw)
    }
}

impl<M: Mode> vstd::std_specs::cmp::PartialEqSpecImpl for BraidBox<M> {
    open spec fn obeys_eq_spec() -> bool {
        true
    }

    open spec fn eq_spec(&self, other: &Self) -> bool {
        self@ == other@
    }
}

impl<'a, M: Mode> PartialEq<BraidRef<'a, M>> for Braid<M> {
    fn eq(&self, other: &BraidRef<'a, M>) -> (r: bool) {
        str_eq(self.raw.as_str(), other.raw)
    }
}

impl<'a, M: Mode> vstd::std_specs::cmp::PartialEqSpecImpl<BraidRef<'a, M>> for Braid<M> {
    open spec fn obeys_eq_spec() -> bool {
        true
    }

    open spec fn eq_spec(&self, other: &BraidRef<'a, M>) -> bool {
        self@ == other@
    }
}

/// Either a view of input that was already canonical, or an owned value
/// holding its rewritten normal form.
#[derive(Debug)]
pub enum BraidCow<'a, M: Mode> {
    Borrowed(BraidRef<'a, M>),
    Owned(Braid<M>),
}

impl<'a, M: Mode> View for BraidCow<'a, M> {
    type V = Seq<char>;

    open spec fn view(&self) -> Seq<char> {
        match self {
            BraidCow::Borrowed(b) => b@,
            BraidCow::Owned(o) => o@,
        }
    }
}

impl<'a, M: Mode> BraidCow<'a, M> {
    /// The content as a string slice.
    pub fn as_str(&self) -> (r: &str)
        ensures
            r@ == self@,
    {
        match self {
            BraidCow::Borrowed(b) => b.as_str(),
            BraidCow::Owned(o) => o.as_str(),
        }
    }

    /// A borrowed view of the content.
    pub fn as_ref(&self) -> (r: BraidRef<'_, M>)
        ensures
            r@ == self@,
    {
        match self {
            BraidCow::Borrowed(b) => *b,
            BraidCow::Owned(o) => o.as_ref(),
        }
    }

    /// The content as an owned value, copying only when it was borrowed.
    pub fn into_owned(self) -> (r: Braid<M>)
        ensures
            r@ == self@,
    {
        match self {
            BraidCow::Borrowed(b) => b.to_owned(),
            BraidCow::Owned(o) => o,
        }
    }
}

impl<'a, M: Mode> PartialEq<Braid<M>> for BraidRef<'a, M> {
    fn eq(&self, other: &Braid<M>) -> (r: bool) {
        str_eq(self.raw, other.raw.as_str())
    }
}

impl<'a, M: Mode> vstd::std_specs::cmp::PartialEqSpecImpl<Braid<M>> for BraidRef<'a, M> {
    open spec fn obeys_eq_spec() -> bool {
        true
    }

    open spec fn eq_spec(&self, other: &Braid<M>) -> bool {
        self@ == other@
    }
}

impl<'a, M: Mode> From<Braid<M>> for BraidCow<'a, M> {
    fn from(owned: Braid<M>) -> (r: Self)
        ensures
            r == BraidCow::<'a, M>::Owned(owned),
    {
        BraidCow::Owned(owned)
    }
}

impl<'a, M: Mode> vstd::std_specs::convert::FromSpecImpl<Braid<M>> for BraidCow<'a, M> {
    open spec fn obeys_from_spec() -> bool {
        true
    }

    open spec fn from_spec(owned: Braid<M>) -> Self {
        BraidCow::Owned(owned)
    }
}

impl<'a, M: Mode> From<BraidRef<'a, M>> for BraidCow<'a, M> {
    fn from(view: BraidRef<'a, M>) -> (r: Self)
        ensures
            r == BraidCow::Borrowed(view),
    {
        BraidCow::Borrowed(view)
    }
}

impl<'a, M: Mode> vstd::std_specs::convert::FromSpecImpl<BraidRef<'a, M>> for BraidCow<'a, M> {
    open spec fn obeys_from_spec() -> bool {
        true
    }

    open spec fn from_spec(view: BraidRef<'a, M>) -> Self {
        BraidCow::Borrowed(view)
    }
}

} // verus!
