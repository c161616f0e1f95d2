//! The emission plan: which items the generator emits for the owned and
//! the borrowed type, decided per check mode and per trait policy.
//!
//! Each type's plan is the fixed list of candidate items, in emission order,
//! filtered by a decision table. Turning the items into source text is the
//! business of the code that calls the planner.
use vstd::prelude::*;
use crate::impls::{ImplOption, Impls};

verus! {

/// The kind of check a declaration makes.
#[derive(Clone, Copy, Debug, PartialEq, Eq, Structural)]
pub enum ModeKind {
    Unchecked,
    Validate,
    Normalize,
}

/// What the owned type's plan depends on.
#[derive(Clone, Copy, Debug, PartialEq, Eq, Structural)]
pub struct OwnedShape {
    pub mode: ModeKind,
    pub expose_inner: bool,
    pub impls: Impls,
}

/// What the borrowed type's plan depends on.
#[derive(Clone, Copy, Debug, PartialEq, Eq, Structural)]
pub struct RefShape {
    pub mode: ModeKind,
    /// Whether an owned type is generated alongside.
    pub has_owned: bool,
    pub impls: Impls,
}

/// An item emitted for the owned type.
#[derive(Clone, Copy, Debug, PartialEq, Eq, Structural)]
pub enum OwnedItem {
    /// `#[derive(Clone)]` on the owned type.
    DeriveClone,
    /// `new(wrapped) -> Self`: infallible.
    New,
    /// `new(wrapped) -> Result<Self, Error>`: validates first.
    NewChecked,
    /// `new(wrapped) -> Result<Self, Error>`: normalizes first.
    NewNormalizing,
    /// `new_unchecked(wrapped) -> Self`: the caller vouches for the content.
    NewUnchecked,
    /// `from_static(&'static str) -> Self`: copies the borrowed form.
    FromStatic,
    /// `from_static`: panics when the input is invalid.
    FromStaticChecked,
    /// `from_static`: normalizes, and panics when the input is invalid.
    FromStaticNormalizing,
    /// `into_boxed_ref(self) -> Box<Borrowed>`, without copying.
    IntoBoxedRef,
    /// `take(self) -> Wrapped`: unwraps the field.
    Take,
    /// `From<&Borrowed>`.
    FromRef,
    /// `Borrow<Borrowed>`.
    BorrowRef,
    /// `AsRef<Borrowed>`.
    AsRefRef,
    /// `AsRef<str>`.
    AsRefStr,
    /// `From<Owned> for Box<Borrowed>`.
    BoxFromOwned,
    /// `From<Box<Borrowed>>`.
    FromBoxedRef,
    /// `From<Cow<Borrowed>>`.
    FromCowRef,
    /// `From<Owned> for Cow<Borrowed>`.
    CowFromOwned,
    /// `From<Wrapped>`.
    FromWrapped,
    /// `TryFrom<Wrapped>`, through `new`.
    TryFromWrapped,
    /// `From<&str>`.
    FromStrRef,
    /// `TryFrom<&str>`, through the borrowed constructor.
    TryFromStrRef,
    /// `FromStr` with `Infallible` as its error, through `From<&str>`.
    FromStrInfallible,
    /// `FromStr` with the checker's error, through the borrowed constructor.
    FromStrFallible,
    /// `Borrow<str>`.
    BorrowStr,
    /// `Deref<Target = Borrowed>` through `from_str`.
    Deref,
    /// `Deref<Target = Borrowed>` through `from_str_unchecked`: the content already passed the checks.
    DerefUnchecked,
    /// `Debug`, delegating to the borrowed type's.
    Debug,
    /// `Display`, delegating to the borrowed type's.
    Display,
    /// `Ord` and `PartialOrd`, comparing the field directly.
    Ord,
    /// `Serialize` through the wrapped type, and `Deserialize` re-running the
    /// infallible `new`.
    Serde,
    /// `Serialize` through the wrapped type, and `Deserialize` re-running
    /// `new` and reporting its error through serde's custom-message channel.
    SerdeChecked,
}

/// Whether the plan for `s` holds `item`.
pub open spec fn owned_wants(s: OwnedShape, item: OwnedItem) -> bool {
    match item {
        OwnedItem::DeriveClone => s.impls.clone.0 == ImplOption::Implement,
        OwnedItem::New => s.mode == ModeKind::Unchecked,
        OwnedItem::NewChecked => s.mode == ModeKind::Validate,
        OwnedItem::NewNormalizing => s.mode == ModeKind::Normalize,
        OwnedItem::NewUnchecked => s.mode != ModeKind::Unchecked,
        OwnedItem::FromStatic => s.mode == ModeKind::Unchecked,
        OwnedItem::FromStaticChecked => s.mode == ModeKind::Validate,
        OwnedItem::FromStaticNormalizing => s.mode == ModeKind::Normalize,
        OwnedItem::IntoBoxedRef => true,
        OwnedItem::Take => s.expose_inner,
        OwnedItem::FromRef => true,
        OwnedItem::BorrowRef => true,
        OwnedItem::AsRefRef => true,
        OwnedItem::AsRefStr => true,
        OwnedItem::BoxFromOwned => true,
        OwnedItem::FromBoxedRef => true,
        OwnedItem::FromCowRef => true,
        OwnedItem::CowFromOwned => true,
        OwnedItem::FromWrapped => s.mode == ModeKind::Unchecked && s.expose_inner,
        OwnedItem::TryFromWrapped => s.mode != ModeKind::Unchecked && s.expose_inner,
        OwnedItem::FromStrRef => s.mode == ModeKind::Unchecked,
        OwnedItem::TryFromStrRef => s.mode != ModeKind::Unchecked,
        OwnedItem::FromStrInfallible => s.mode == ModeKind::Unchecked,
        OwnedItem::FromStrFallible => s.mode != ModeKind::Unchecked,
        OwnedItem::BorrowStr => s.mode != ModeKind::Normalize,
        OwnedItem::Deref => s.mode == ModeKind::Unchecked,
        OwnedItem::DerefUnchecked => s.mode != ModeKind::Unchecked,
        OwnedItem::Debug => s.impls.debug.0.spec_on_owned(),
        OwnedItem::Display => s.impls.display.0.spec_on_owned(),
        OwnedItem::Ord => s.impls.ord.0.spec_on_owned(),
        OwnedItem::Serde => s.impls.serde.0 == ImplOption::Implement && s.mode == ModeKind::Unchecked,
        OwnedItem::SerdeChecked => s.impls.serde.0 == ImplOption::Implement && s.mode
            != ModeKind::Unchecked,
    }
}

/// Every candidate item, in emission order.
pub open spec fn owned_candidates() -> Seq<OwnedItem> {
    seq![
        OwnedItem::DeriveClone,
        OwnedItem::New,
        OwnedItem::NewChecked,
        OwnedItem::NewNormalizing,
        OwnedItem::NewUnchecked,
        OwnedItem::FromStatic,
        OwnedItem::FromStaticChecked,
        OwnedItem::FromStaticNormalizing,
        OwnedItem::IntoBoxedRef,
        OwnedItem::Take,
        OwnedItem::FromRef,
        OwnedItem::BorrowRef,
        OwnedItem::AsRefRef,
        OwnedItem::AsRefStr,
        OwnedItem::BoxFromOwned,
        OwnedItem::FromBoxedRef,
        OwnedItem::FromCowRef,
        OwnedItem::CowFromOwned,
        OwnedItem::FromWrapped,
        OwnedItem::TryFromWrapped,
        OwnedItem::FromStrRef,
        OwnedItem::TryFromStrRef,
        OwnedItem::FromStrInfallible,
        OwnedItem::FromStrFallible,
        OwnedItem::BorrowStr,
        OwnedItem::Deref,
        OwnedItem::DerefUnchecked,
        OwnedItem::Debug,
        OwnedItem::Display,
        OwnedItem::Ord,
        OwnedItem::Serde,
        OwnedItem::SerdeChecked,
    ]
}

/// Whether the plan for `s` holds `item`.
pub fn owned_item_wanted(s: &OwnedShape, item: OwnedItem) -> (r: bool)
    ensures
        r == owned_wants(*s, item),
{
    match item {
        OwnedItem::DeriveClone => s.impls.clone.0 == ImplOption::Implement,
        OwnedItem::New => s.mode == ModeKind::Unchecked,
        OwnedItem::NewChecked => s.mode == ModeKind::Validate,
        OwnedItem::NewNormalizing => s.mode == ModeKind::Normalize,
        OwnedItem::NewUnchecked => s.mode != ModeKind::Unchecked,
        OwnedItem::FromStatic => s.mode == ModeKind::Unchecked,
        OwnedItem::FromStaticChecked => s.mode == ModeKind::Validate,
        OwnedItem::FromStaticNormalizing => s.mode == ModeKind::Normalize,
        OwnedItem::IntoBoxedRef => true,
        OwnedItem::Take => s.expose_inner,
        OwnedItem::FromRef => true,
        OwnedItem::BorrowRef => true,
        OwnedItem::AsRefRef => true,
        OwnedItem::AsRefStr => true,
        OwnedItem::BoxFromOwned => true,
        OwnedItem::FromBoxedRef => true,
        OwnedItem::FromCowRef => true,
        OwnedItem::CowFromOwned => true,
        OwnedItem::FromWrapped => s.mode == ModeKind::Unchecked && s.expose_inner,
        OwnedItem::TryFromWrapped => s.mode != ModeKind::Unchecked && s.expose_inner,
        OwnedItem::FromStrRef => s.mode == ModeKind::Unchecked,
        OwnedItem::TryFromStrRef => s.mode != ModeKind::Unchecked,
        OwnedItem::FromStrInfallible => s.mode == ModeKind::Unchecked,
        OwnedItem::FromStrFallible => s.mode != ModeKind::Unchecked,
        OwnedItem::BorrowStr => s.mode != ModeKind::Normalize,
        OwnedItem::Deref => s.mode == ModeKind::Unchecked,
        OwnedItem::DerefUnchecked => s.mode != ModeKind::Unchecked,
        OwnedItem::Debug => s.impls.debug.0.on_owned(),
        OwnedItem::Display => s.impls.display.0.on_owned(),
        OwnedItem::Ord => s.impls.ord.0.on_owned(),
        OwnedItem::Serde => s.impls.serde.0 == ImplOption::Implement && s.mode == ModeKind::Unchecked,
        OwnedItem::SerdeChecked => s.impls.serde.0 == ImplOption::Implement && s.mode
            != ModeKind::Unchecked,
    }
}

/// The items emitted for `s`: the candidates that the table selects, in
/// emission order, each once.
pub fn owned_plan(s: &OwnedShape) -> (r: Vec<OwnedItem>)
    ensures
        r@ == owned_candidates().filter(|item: OwnedItem| owned_wants(*s, item)),
{
    let all = [
        OwnedItem::DeriveClone,
        OwnedItem::New,
        OwnedItem::NewChecked,
        OwnedItem::NewNormalizing,
        OwnedItem::NewUnchecked,
        OwnedItem::FromStatic,
        OwnedItem::FromStaticChecked,
        OwnedItem::FromStaticNormalizing,
        OwnedItem::IntoBoxedRef,
        OwnedItem::Take,
        OwnedItem::FromRef,
        OwnedItem::BorrowRef,
        OwnedItem::AsRefRef,
        OwnedItem::AsRefStr,
        OwnedItem::BoxFromOwned,
        OwnedItem::FromBoxedRef,
        OwnedItem::FromCowRef,
        OwnedItem::CowFromOwned,
        OwnedItem::FromWrapped,
        OwnedItem::TryFromWrapped,
        OwnedItem::FromStrRef,
        OwnedItem::TryFromStrRef,
        OwnedItem::FromStrInfallible,
        OwnedItem::FromStrFallible,
        OwnedItem::BorrowStr,
        OwnedItem::Deref,
        OwnedItem::DerefUnchecked,
        OwnedItem::Debug,
        OwnedItem::Display,
        OwnedItem::Ord,
        OwnedItem::Serde,
        OwnedItem::SerdeChecked,
    ];
    let ghost pred = |item: OwnedItem| owned_wants(*s, item);
    let mut out: Vec<OwnedItem> = Vec::new();
    let mut i: usize = 0;
    assert(all@.subrange(0, 0).filter(pred) =~= Seq::<OwnedItem>::empty()) by {
        reveal(Seq::filter);
    }
    while i < 32
        invariant
            i <= 32,
            all@ == owned_candidates(),
            pred == (|item: OwnedItem| owned_wants(*s, item)),
            out@ == all@.subrange(0, i as int).filter(pred),
        decreases 32 - i,
    {
        let item = all[i];
        proof {
            assert(all@.subrange(0, i + 1) =~= all@.subrange(0, i as int).push(item));
            all@.subrange(0, i as int).lemma_filter_push(item, pred);
        }
        if owned_item_wanted(s, item) {
            out.push(item);
        }
        i = i + 1;
    }
    assert(all@.subrange(0, 32) =~= all@);
    out
}

/// An item emitted for the borrowed type.
#[derive(Clone, Copy, Debug, PartialEq, Eq, Structural)]
pub enum RefItem {
    /// `#[derive(PartialOrd, Ord)]` on the borrowed type.
    DeriveOrd,
    /// `as_str(&self) -> &str`.
    AsStr,
    /// `from_str(&str) -> &Self`: infallible reinterpretation.
    FromStr,
    /// `from_static(&'static str) -> &'static Self`.
    FromStatic,
    /// `from_str(&str) -> Result<&Self, Error>`: validates first.
    FromStrChecked,
    /// `from_normalized_str(&str) -> Result<&Self, Error>`: fails on input that needs normalizing.
    FromNormalizedStr,
    /// `from_str(&str) -> Result<Cow<Self>, Error>`: borrows canonical input, owns rewritten input.
    FromStrNormalizing,
    /// `from_cow_str_unchecked`, private to `from_str`.
    FromCowStrUnchecked,
    /// `from_str_unchecked(&str) -> &Self`: the caller vouches for the content.
    FromStrUnchecked,
    /// `from_static` through `from_str`: panics when the input is invalid.
    FromStaticValidated,
    /// `from_static` through `from_normalized_str`: panics when the input is
    /// not canonical.
    FromStaticNormalized,
    /// `into_owned(self: Box<Self>) -> Owned`, without copying.
    IntoOwned,
    /// `ToOwned<Owned = Owned>`.
    ToOwned,
    /// `PartialEq` between the two types and their references, both ways.
    OwnedEq,
    /// `From<&str> for &Borrowed`.
    FromStrRef,
    /// `TryFrom<&str> for &Borrowed`, through `from_str`.
    TryFromStrRef,
    /// `TryFrom<&str> for &Borrowed`, through `from_normalized_str`.
    TryFromStrRefStrict,
    /// `Borrow<str>`.
    BorrowStr,
    /// `AsRef<str>`.
    AsRefStr,
    /// `From<&Borrowed> for Cow<Borrowed>`.
    CowFromRef,
    /// `From<&Cow<Borrowed>> for &Borrowed`.
    RefFromCow,
    /// `From<&Borrowed> for Rc<Borrowed>`.
    RcFromRef,
    /// `From<&Borrowed> for Arc<Borrowed>`.
    ArcFromRef,
    /// `Debug`, delegating to `str`.
    Debug,
    /// `Display`, delegating to `str`.
    Display,
    /// `Serialize` through `as_str`.
    Serialize,
    /// `Deserialize` for `&Borrowed`, through the infallible `from_str`.
    Deserialize,
    /// `Deserialize` for `&Borrowed`, through the validating `from_str`,
    /// reporting its error through serde's custom-message channel.
    DeserializeChecked,
    /// `Deserialize` for `&Borrowed`, through `from_normalized_str`,
    /// reporting its error through serde's custom-message channel.
    DeserializeStrict,
    /// `Deserialize` for `Box<Borrowed>`, through the owned type.
    DeserializeBoxed,
}

/// Whether the plan for `s` holds `item`.
pub open spec fn ref_wants(s: RefShape, item: RefItem) -> bool {
    match item {
        RefItem::DeriveOrd => s.impls.ord.0.spec_on_borrowed(),
        RefItem::AsStr => true,
        RefItem::FromStr => s.mode == ModeKind::Unchecked,
        RefItem::FromStatic => s.mode == ModeKind::Unchecked,
        RefItem::FromStrChecked => s.mode == ModeKind::Validate,
        RefItem::FromNormalizedStr => s.mode == ModeKind::Normalize,
        RefItem::FromStrNormalizing => s.mode == ModeKind::Normalize && s.has_owned,
        RefItem::FromCowStrUnchecked => s.mode == ModeKind::Normalize && s.has_owned,
        RefItem::FromStrUnchecked => s.mode != ModeKind::Unchecked,
        RefItem::FromStaticValidated => s.mode == ModeKind::Validate,
        RefItem::FromStaticNormalized => s.mode == ModeKind::Normalize,
        RefItem::IntoOwned => s.has_owned,
        RefItem::ToOwned => s.has_owned,
        RefItem::OwnedEq => s.has_owned,
        RefItem::FromStrRef => s.mode == ModeKind::Unchecked,
        RefItem::TryFromStrRef => s.mode == ModeKind::Validate,
        RefItem::TryFromStrRefStrict => s.mode == ModeKind::Normalize,
        RefItem::BorrowStr => s.mode != ModeKind::Normalize,
        RefItem::AsRefStr => true,
        RefItem::CowFromRef => s.has_owned,
        RefItem::RefFromCow => s.has_owned,
        RefItem::RcFromRef => s.has_owned,
        RefItem::ArcFromRef => s.has_owned,
        RefItem::Debug => s.impls.debug.0.spec_on_borrowed(),
        RefItem::Display => s.impls.display.0.spec_on_borrowed(),
        RefItem::Serialize => s.impls.serde.0 == ImplOption::Implement,
        RefItem::Deserialize => s.impls.serde.0 == ImplOption::Implement && s.mode == ModeKind::Unchecked,
        RefItem::DeserializeChecked => s.impls.serde.0 == ImplOption::Implement && s.mode
            == ModeKind::Validate,
        RefItem::DeserializeStrict => s.impls.serde.0 == ImplOption::Implement && s.mode == ModeKind::Normalize,
        RefItem::DeserializeBoxed => s.impls.serde.0 == ImplOption::Implement && s.has_owned,
    }
}

/// Every candidate item, in emission order.
pub open spec fn ref_candidates() -> Seq<RefItem> {
    seq![
        RefItem::DeriveOrd,
        RefItem::AsStr,
        RefItem::FromStr,
        RefItem::FromStatic,
        RefItem::FromStrChecked,
        RefItem::FromNormalizedStr,
        RefItem::FromStrNormalizing,
        RefItem::FromCowStrUnchecked,
        RefItem::FromStrUnchecked,
        RefItem::FromStaticValidated,
        RefItem::FromStaticNormalized,
        RefItem::IntoOwned,
        RefItem::ToOwned,
        RefItem::OwnedEq,
        RefItem::FromStrRef,
        RefItem::TryFromStrRef,
        RefItem::TryFromStrRefStrict,
        RefItem::BorrowStr,
        RefItem::AsRefStr,
        RefItem::CowFromRef,
        RefItem::RefFromCow,
        RefItem::RcFromRef,
        RefItem::ArcFromRef,
        RefItem::Debug,
        RefItem::Display,
        RefItem::Serialize,
        RefItem::Deserialize,
        RefItem::DeserializeChecked,
        RefItem::DeserializeStrict,
        RefItem::DeserializeBoxed,
    ]
}

/// Whether the plan for `s` holds `item`.
pub fn ref_item_wanted(s: &RefShape, item: RefItem) -> (r: bool)
    ensures
        r == ref_wants(*s, item),
{
    match item {
        RefItem::DeriveOrd => s.impls.ord.0.on_borrowed(),
        RefItem::AsStr => true,
        RefItem::FromStr => s.mode == ModeKind::Unchecked,
        RefItem::FromStatic => s.mode == ModeKind::Unchecked,
        RefItem::FromStrChecked => s.mode == ModeKind::Validate,
        RefItem::FromNormalizedStr => s.mode == ModeKind::Normalize,
        RefItem::FromStrNormalizing => s.mode == ModeKind::Normalize && s.has_owned,
        RefItem::FromCowStrUnchecked => s.mode == ModeKind::Normalize && s.has_owned,
        RefItem::FromStrUnchecked => s.mode != ModeKind::Unchecked,
        RefItem::FromStaticValidated => s.mode == ModeKind::Validate,
        RefItem::FromStaticNormalized => s.mode == ModeKind::Normalize,
        RefItem::IntoOwned => s.has_owned,
        RefItem::ToOwned => s.has_owned,
        RefItem::OwnedEq => s.has_owned,
        RefItem::FromStrRef => s.mode == ModeKind::Unchecked,
        RefItem::TryFromStrRef => s.mode == ModeKind::Validate,
        RefItem::TryFromStrRefStrict => s.mode == ModeKind::Normalize,
        RefItem::BorrowStr => s.mode != ModeKind::Normalize,
        RefItem::AsRefStr => true,
        RefItem::CowFromRef => s.has_owned,
        RefItem::RefFromCow => s.has_owned,
        RefItem::RcFromRef => s.has_owned,
        RefItem::ArcFromRef => s.has_owned,
        RefItem::Debug => s.impls.debug.0.on_borrowed(),
        RefItem::Display => s.impls.display.0.on_borrowed(),
        RefItem::Serialize => s.impls.serde.0 == ImplOption::Implement,
        RefItem::Deserialize => s.impls.serde.0 == ImplOption::Implement && s.mode == ModeKind::Unchecked,
        RefItem::DeserializeChecked => s.impls.serde.0 == ImplOption::Implement && s.mode
            == ModeKind::Validate,
        RefItem::DeserializeStrict => s.impls.serde.0 == ImplOption::Implement && s.mode == ModeKind::Normalize,
        RefItem::DeserializeBoxed => s.impls.serde.0 == ImplOption::Implement && s.has_owned,
    }
}

/// The items emitted for `s`: the candidates that the table selects, in
/// emission order, each once.
pub fn ref_plan(s: &RefShape) -> (r: Vec<RefItem>)
    ensures
        r@ == ref_candidates().filter(|item: RefItem| ref_wants(*s, item)),
{
    let all = [
        RefItem::DeriveOrd,
        RefItem::AsStr,
        RefItem::FromStr,
        RefItem::FromStatic,
        RefItem::FromStrChecked,
        RefItem::FromNormalizedStr,
        RefItem::FromStrNormalizing,
        RefItem::FromCowStrUnchecked,
        RefItem::FromStrUnchecked,
        RefItem::FromStaticValidated,
        RefItem::FromStaticNormalized,
        RefItem::IntoOwned,
        RefItem::ToOwned,
        RefItem::OwnedEq,
        RefItem::FromStrRef,
        RefItem::TryFromStrRef,
        RefItem::TryFromStrRefStrict,
        RefItem::BorrowStr,
        RefItem::AsRefStr,
        RefItem::CowFromRef,
        RefItem::RefFromCow,
        RefItem::RcFromRef,
        RefItem::ArcFromRef,
        RefItem::Debug,
        RefItem::Display,
        RefItem::Serialize,
        RefItem::Deserialize,
        RefItem::DeserializeChecked,
        RefItem::DeserializeStrict,
        RefItem::DeserializeBoxed,
    ];
    let ghost pred = |item: RefItem| ref_wants(*s, item);
    let mut out: Vec<RefItem> = Vec::new();
    let mut i: usize = 0;
    assert(all@.subrange(0, 0).filter(pred) =~= Seq::<RefItem>::empty()) by {
        reveal(Seq::filter);
    }
    while i < 30
        invariant
            i <= 30,
            all@ == ref_candidates(),
            pred == (|item: RefItem| ref_wants(*s, item)),
            out@ == all@.subrange(0, i as int).filter(pred),
        decreases 30 - i,
    {
        let item = all[i];
        proof {
            assert(all@.subrange(0, i + 1) =~= all@.subrange(0, i as int).push(item));
            all@.subrange(0, i as int).lemma_filter_push(item, pred);
        }
        if ref_item_wanted(s, item) {
            out.push(item);
        }
        i = i + 1;
    }
    assert(all@.subrange(0, 30) =~= all@);
    out
}

/// The position of each item among the candidates.
pub open spec fn owned_position(item: OwnedItem) -> int {
    match item {
        OwnedItem::DeriveClone => 0,
        OwnedItem::New => 1,
        OwnedItem::NewChecked => 2,
        OwnedItem::NewNormalizing => 3,
        OwnedItem::NewUnchecked => 4,
        OwnedItem::FromStatic => 5,
        OwnedItem::FromStaticChecked => 6,
        OwnedItem::FromStaticNormalizing => 7,
        OwnedItem::IntoBoxedRef => 8,
        OwnedItem::Take => 9,
        OwnedItem::FromRef => 10,
        OwnedItem::BorrowRef => 11,
        OwnedItem::AsRefRef => 12,
        OwnedItem::AsRefStr => 13,
        OwnedItem::BoxFromOwned => 14,
        OwnedItem::FromBoxedRef => 15,
        OwnedItem::FromCowRef => 16,
        OwnedItem::CowFromOwned => 17,
        OwnedItem::FromWrapped => 18,
        OwnedItem::TryFromWrapped => 19,
        OwnedItem::FromStrRef => 20,
        OwnedItem::TryFromStrRef => 21,
        OwnedItem::FromStrInfallible => 22,
        OwnedItem::FromStrFallible => 23,
        OwnedItem::BorrowStr => 24,
        OwnedItem::Deref => 25,
        OwnedItem::DerefUnchecked => 26,
        OwnedItem::Debug => 27,
        OwnedItem::Display => 28,
        OwnedItem::Ord => 29,
        OwnedItem::Serde => 30,
        OwnedItem::SerdeChecked => 31,
    }
}

/// A plan holds an item exactly when the table selects it.
pub proof fn lemma_owned_plan_membership(s: OwnedShape, item: OwnedItem)
    ensures
        owned_candidates().filter(|i: OwnedItem| owned_wants(s, i)).contains(item) == owned_wants(s, item),
{
    let pred = |i: OwnedItem| owned_wants(s, i);
    let c = owned_candidates();
    let k = owned_position(item);
    assert(0 <= k < c.len() && c[k] == item);
    if pred(item) {
        c.lemma_filter_contains(pred, k);
    }
    if c.filter(pred).contains(item) {
        let j = choose|j: int| 0 <= j < c.filter(pred).len() && c.filter(pred)[j] == item;
        c.lemma_filter_pred(pred, j);
    }
}

/// The position of each item among the candidates.
pub open spec fn ref_position(item: RefItem) -> int {
    match item {
        RefItem::DeriveOrd => 0,
        RefItem::AsStr => 1,
        RefItem::FromStr => 2,
        RefItem::FromStatic => 3,
        RefItem::FromStrChecked => 4,
        RefItem::FromNormalizedStr => 5,
        RefItem::FromStrNormalizing => 6,
        RefItem::FromCowStrUnchecked => 7,
        RefItem::FromStrUnchecked => 8,
        RefItem::FromStaticValidated => 9,
        RefItem::FromStaticNormalized => 10,
        RefItem::IntoOwned => 11,
        RefItem::ToOwned => 12,
        RefItem::OwnedEq => 13,
        RefItem::FromStrRef => 14,
        RefItem::TryFromStrRef => 15,
        RefItem::TryFromStrRefStrict => 16,
        RefItem::BorrowStr => 17,
        RefItem::AsRefStr => 18,
        RefItem::CowFromRef => 19,
        RefItem::RefFromCow => 20,
        RefItem::RcFromRef => 21,
        RefItem::ArcFromRef => 22,
        RefItem::Debug => 23,
        RefItem::Display => 24,
        RefItem::Serialize => 25,
        RefItem::Deserialize => 26,
        RefItem::DeserializeChecked => 27,
        RefItem::DeserializeStrict => 28,
        RefItem::DeserializeBoxed => 29,
    }
}

/// A plan holds an item exactly when the table selects it.
pub proof fn lemma_ref_plan_membership(s: RefShape, item: RefItem)
    ensures
        ref_candidates().filter(|i: RefItem| ref_wants(s, i)).contains(item) == ref_wants(s, item),
{
    let pred = |i: RefItem| ref_wants(s, i);
    let c = ref_candidates();
    let k = ref_position(item);
    assert(0 <= k < c.len() && c[k] == item);
    if pred(item) {
        c.lemma_filter_contains(pred, k);
    }
    if c.filter(pred).contains(item) {
        let j = choose|j: int| 0 <= j < c.filter(pred).len() && c.filter(pred)[j] == item;
        c.lemma_filter_pred(pred, j);
    }
}

} // verus!
