//! Properties that relate the constructors and views of the braid types.
use vstd::prelude::*;
use std::borrow::Cow;
use crate::braid::{Braid, BraidBox, BraidRef, Mode, Normalizing, Unchecked, Validating};
use crate::rules::{Normalizer, Validator};
use vstd::std_specs::cmp::PartialEqSpec;
use crate::impls::ImplOption;
use crate::plan::{
    lemma_owned_plan_membership, lemma_ref_plan_membership, owned_candidates, owned_wants,
    ref_candidates, ref_wants, ModeKind, OwnedItem, OwnedShape, RefItem, RefShape,
};

verus! {

/// Without checks, an owned value built from `raw` holds exactly `raw`, and
/// it equals the borrowed view built from the same text.
pub proof fn lemma_unchecked_round_trip<T>(
    raw: String,
    text: &str,
    owned: Braid<Unchecked<T>>,
    view: BraidRef<Unchecked<T>>,
)
    requires
        text@ == raw@,
        call_ensures(Braid::<Unchecked<T>>::new, (raw,), owned),
        call_ensures(BraidRef::<Unchecked<T>>::from_str, (text,), view),
    ensures
        owned@ == raw@,
        view@ == raw@,
        owned.eq_spec(&view),
{
}

/// The owned constructor and the borrowed constructor of a validated braid
/// accept the same strings: both fail with the validator's error on a string
/// it rejects, and both keep an accepted string unchanged.
pub proof fn lemma_validation_gate<V: Validator>(
    raw: String,
    text: &str,
    owned: Result<Braid<Validating<V>>, V::Error>,
    view: Result<BraidRef<Validating<V>>, V::Error>,
)
    requires
        text@ == raw@,
        call_ensures(Braid::<Validating<V>>::new, (raw,), owned),
        call_ensures(BraidRef::<Validating<V>>::from_str, (text,), view),
    ensures
        !V::is_valid(raw@) ==> owned == Err::<Braid<Validating<V>>, V::Error>(V::rejection(raw@))
            && view == Err::<BraidRef<Validating<V>>, V::Error>(V::rejection(raw@)),
        V::is_valid(raw@) ==> (owned matches Ok(o) && o@ == raw@) && (view matches Ok(b) && b@
            == raw@),
{
}

/// Normalizing a normal form leaves it unchanged: the normalizer borrows it
/// instead of rewriting it.
pub proof fn lemma_normal_form_is_stable<N: Normalizer>(
    canonical: &str,
    result: Result<Cow<str>, N::Error>,
)
    requires
        exists|raw: Seq<char>| N::is_normalizable(raw) && canonical@ == N::normal_form(raw),
        call_ensures(N::normalize, (canonical,), result),
    ensures
        result matches Ok(Cow::Borrowed(b)) && b@ == canonical@,
{
    let raw = choose|raw: Seq<char>| N::is_normalizable(raw) && canonical@ == N::normal_form(raw);
    N::lemma_normal_form_is_valid(raw);
}

/// The strict borrowed constructor of a normalized braid accepts a
/// normalizable string exactly when it already is its own normal form, and
/// then keeps it unchanged.
pub proof fn lemma_strict_accepts_only_normal_forms<N: Normalizer>(
    text: &str,
    view: Result<BraidRef<Normalizing<N>>, N::Error>,
)
    requires
        N::is_normalizable(text@),
        call_ensures(BraidRef::<Normalizing<N>>::from_normalized_str, (text,), view),
    ensures
        (view is Ok) == (N::normal_form(text@) == text@),
        view matches Ok(b) ==> b@ == text@,
{
    N::lemma_normal_form_is_valid(text@);
    if N::is_valid(text@) {
        N::lemma_valid_is_canonical(text@);
    }
}

/// An owned value and the borrowed view built from the same accepted text
/// are equal, whichever way they are compared.
pub proof fn lemma_owned_and_borrowed_agree<V: Validator>(
    raw: String,
    text: &str,
    owned: Result<Braid<Validating<V>>, V::Error>,
    view: Result<BraidRef<Validating<V>>, V::Error>,
)
    requires
        text@ == raw@,
        V::is_valid(raw@),
        call_ensures(Braid::<Validating<V>>::new, (raw,), owned),
        call_ensures(BraidRef::<Validating<V>>::from_str, (text,), view),
    ensures
        owned matches Ok(o) && view matches Ok(b) && o.eq_spec(&b) && b.eq_spec(&o) && o@ == b@,
{
}

/// Deserializing the serialized form of a validated value gives back an
/// equal value.
pub proof fn lemma_serialization_round_trip<V: Validator>(
    value: Braid<Validating<V>>,
    text: &str,
    wire: String,
    back: Result<Braid<Validating<V>>, V::Error>,
)
    requires
        call_ensures(Braid::<Validating<V>>::serialize_str, (&value,), text),
        wire@ == text@,
        call_ensures(Braid::<Validating<V>>::deserialize_string, (wire,), back),
    ensures
        back matches Ok(b) && b.eq_spec(&value),
{
}

/// Boxing an owned value and unboxing it again keeps its content, and the
/// boxed form views the same content.
pub proof fn lemma_boxing_round_trip<M: Mode>(
    owned: Braid<M>,
    boxed: BraidBox<M>,
    view: BraidRef<M>,
    back: Braid<M>,
)
    requires
        call_ensures(Braid::<M>::into_boxed_ref, (owned,), boxed),
        call_ensures(BraidBox::<M>::as_ref, (&boxed,), view),
        call_ensures(BraidBox::<M>::into_owned, (boxed,), back),
    ensures
        boxed@ == owned@,
        view@ == owned@,
        back.eq_spec(&owned),
        back.eq_spec(&view),
{
}

/// The borrowed type implements `Borrow<str>` exactly when no normalizer is
/// declared: a normal form may differ from the text it came from, which
/// would break the agreement of hashing and equality that `Borrow` demands.
pub proof fn lemma_borrow_str_only_without_normalizer(s: RefShape)
    ensures
        ref_candidates().filter(|i: RefItem| ref_wants(s, i)).contains(RefItem::BorrowStr) == (s.mode
            != ModeKind::Normalize),
{
    lemma_ref_plan_membership(s, RefItem::BorrowStr);
}

/// With a normalizer, the borrowed type deserializes only through the strict
/// entry point, which never rewrites its input; with a validator, only
/// through the validating one; without either, only through the infallible
/// one.
pub proof fn lemma_borrowed_deserialization_is_strict_when_normalized(s: RefShape)
    requires
        s.impls.serde.0 == ImplOption::Implement,
    ensures
        ref_candidates().filter(|i: RefItem| ref_wants(s, i)).contains(RefItem::DeserializeStrict)
            == (s.mode == ModeKind::Normalize),
        ref_candidates().filter(|i: RefItem| ref_wants(s, i)).contains(RefItem::DeserializeChecked)
            == (s.mode == ModeKind::Validate),
        ref_candidates().filter(|i: RefItem| ref_wants(s, i)).contains(RefItem::Deserialize) == (s.mode
            == ModeKind::Unchecked),
{
    lemma_ref_plan_membership(s, RefItem::DeserializeStrict);
    lemma_ref_plan_membership(s, RefItem::DeserializeChecked);
    lemma_ref_plan_membership(s, RefItem::Deserialize);
}

/// The owned type dereferences to its borrowed type through the unchecked
/// entry point exactly when content is checked: its content already passed
/// the checks when it was built.
pub proof fn lemma_checked_deref_skips_rechecking(s: OwnedShape)
    ensures
        owned_candidates().filter(|i: OwnedItem| owned_wants(s, i)).contains(OwnedItem::DerefUnchecked)
            == (s.mode != ModeKind::Unchecked),
        owned_candidates().filter(|i: OwnedItem| owned_wants(s, i)).contains(OwnedItem::Deref) == (s.mode
            == ModeKind::Unchecked),
{
    lemma_owned_plan_membership(s, OwnedItem::DerefUnchecked);
    lemma_owned_plan_membership(s, OwnedItem::Deref);
}

} // verus!
