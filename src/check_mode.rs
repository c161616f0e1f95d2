//! How a declaration checks its content: not at all, by a validator, or by a
//! normalizer, with at most one of the two set.
use vstd::prelude::*;
use crate::symbol::Symbol;

verus! {

/// The check mode after resolution: the type that supplies the checks is
/// known.
pub enum CheckMode {
    Unchecked,
    Validate(String),
    Normalize(String),
}

/// The check mode as declared: the type that supplies the checks may be
/// left out, meaning the declared type itself.
pub enum IndefiniteCheckMode {
    Unchecked,
    Validate(Option<String>),
    Normalize(Option<String>),
}

/// The mathematical form of a check mode: which kind, and the type name.
pub enum ModeModel<T> {
    Unchecked,
    Validate(T),
    Normalize(T),
}

/// Why a validator or normalizer could not be set.
#[derive(Clone, Copy, Debug, PartialEq, Eq, Structural)]
pub enum ModeConflict {
    /// The same key was given twice.
    Repeated(Symbol),
    /// Both a validator and a normalizer were given.
    Exclusive,
}

/// The characters of an optional string.
pub open spec fn opt_view(o: Option<String>) -> Option<Seq<char>> {
    match o {
        Some(s) => Some(s@),
        None => None,
    }
}

impl View for CheckMode {
    type V = ModeModel<Seq<char>>;

    open spec fn view(&self) -> ModeModel<Seq<char>> {
        match self {
            CheckMode::Unchecked => ModeModel::Unchecked,
            CheckMode::Validate(t) => ModeModel::Validate(t@),
            CheckMode::Normalize(t) => ModeModel::Normalize(t@),
        }
    }
}

impl View for IndefiniteCheckMode {
    type V = ModeModel<Option<Seq<char>>>;

    open spec fn view(&self) -> ModeModel<Option<Seq<char>>> {
        match self {
            IndefiniteCheckMode::Unchecked => ModeModel::Unchecked,
            IndefiniteCheckMode::Validate(t) => ModeModel::Validate(opt_view(*t)),
            IndefiniteCheckMode::Normalize(t) => ModeModel::Normalize(opt_view(*t)),
        }
    }
}

impl ModeConflict {
    /// The diagnostic for this conflict.
    pub fn message(&self) -> (r: String)
        ensures
            r@ == match self {
                ModeConflict::Repeated(Symbol::Validator) => "validator can only be specified once"@,
                ModeConflict::Repeated(_) => "normalizer can only be specified once"@,
                ModeConflict::Exclusive => "only one of validator and normalizer can be specified at a time"@,
            },
    {
        match self {
            ModeConflict::Repeated(Symbol::Validator) => "validator can only be specified once".to_owned(),
            ModeConflict::Repeated(_) => "normalizer can only be specified once".to_owned(),
            ModeConflict::Exclusive => "only one of validator and normalizer can be specified at a time".to_owned(),
        }
    }
}

impl CheckMode {
    /// Sets a validator; fails if a validator or a normalizer is already set,
    /// leaving the mode as it was.
    pub fn try_set_validator(&mut self, validator: String) -> (r: Result<(), ModeConflict>)
        ensures
            old(self)@ is Unchecked ==> r is Ok && final(self)@ == ModeModel::Validate(validator@),
            old(self)@ is Validate ==> r == Err::<(), ModeConflict>(ModeConflict::Repeated(Symbol::Validator))
                && final(self)@ == old(self)@,
            old(self)@ is Normalize ==> r == Err::<(), ModeConflict>(ModeConflict::Exclusive)
                && final(self)@ == old(self)@,
    {
        match self {
            CheckMode::Unchecked => {
                *self = CheckMode::Validate(validator);
                Ok(())
            },
            CheckMode::Validate(_) => Err(ModeConflict::Repeated(Symbol::Validator)),
            CheckMode::Normalize(_) => Err(ModeConflict::Exclusive),
        }
    }

    /// Sets a normalizer; fails if a validator or a normalizer is already
    /// set, leaving the mode as it was.
    pub fn try_set_normalizer(&mut self, normalizer: String) -> (r: Result<(), ModeConflict>)
        ensures
            old(self)@ is Unchecked ==> r is Ok && final(self)@ == ModeModel::Normalize(normalizer@),
            old(self)@ is Normalize ==> r == Err::<(), ModeConflict>(ModeConflict::Repeated(Symbol::Normalizer))
                && final(self)@ == old(self)@,
            old(self)@ is Validate ==> r == Err::<(), ModeConflict>(ModeConflict::Exclusive)
                && final(self)@ == old(self)@,
    {
        match self {
            CheckMode::Unchecked => {
                *self = CheckMode::Normalize(normalizer);
                Ok(())
            },
            CheckMode::Normalize(_) => Err(ModeConflict::Repeated(Symbol::Normalizer)),
            CheckMode::Validate(_) => Err(ModeConflict::Exclusive),
        }
    }
}

impl IndefiniteCheckMode {
    /// Declares a validator; fails if a validator or a normalizer is already
    /// declared, leaving the mode as it was.
    pub fn try_set_validator(&mut self, validator: Option<String>) -> (r: Result<(), ModeConflict>)
        ensures
            old(self)@ is Unchecked ==> r is Ok && final(self)@ == ModeModel::Validate(opt_view(validator)),
            old(self)@ is Validate ==> r == Err::<(), ModeConflict>(ModeConflict::Repeated(Symbol::Validator))
                && final(self)@ == old(self)@,
            old(self)@ is Normalize ==> r == Err::<(), ModeConflict>(ModeConflict::Exclusive)
                && final(self)@ == old(self)@,
    {
        match self {
            IndefiniteCheckMode::Unchecked => {
                *self = IndefiniteCheckMode::Validate(validator);
                Ok(())
            },
            IndefiniteCheckMode::Validate(_) => Err(ModeConflict::Repeated(Symbol::Validator)),
            IndefiniteCheckMode::Normalize(_) => Err(ModeConflict::Exclusive),
        }
    }

    /// Declares a normalizer; fails if a validator or a normalizer is already
    /// declared, leaving the mode as it was.
    pub fn try_set_normalizer(&mut self, normalizer: Option<String>) -> (r: Result<(), ModeConflict>)
        ensures
            old(self)@ is Unchecked ==> r is Ok && final(self)@ == ModeModel::Normalize(opt_view(normalizer)),
            old(self)@ is Normalize ==> r == Err::<(), ModeConflict>(ModeConflict::Repeated(Symbol::Normalizer))
                && final(self)@ == old(self)@,
            old(self)@ is Validate ==> r == Err::<(), ModeConflict>(ModeConflict::Exclusive)
                && final(self)@ == old(self)@,
    {
        match self {
            IndefiniteCheckMode::Unchecked => {
                *self = IndefiniteCheckMode::Normalize(normalizer);
                Ok(())
            },
            IndefiniteCheckMode::Normalize(_) => Err(ModeConflict::Repeated(Symbol::Normalizer)),
            IndefiniteCheckMode::Validate(_) => Err(ModeConflict::Exclusive),
        }
    }

    /// Resolves the mode: a validator or normalizer that was left out is the
    /// declared type `default` itself.
    pub fn infer_validator_if_missing(self, default: &str) -> (r: CheckMode)
        ensures
            r@ == resolve_mode(self@, default@),
    {
        match self {
            IndefiniteCheckMode::Unchecked => CheckMode::Unchecked,
            IndefiniteCheckMode::Validate(Some(v)) => CheckMode::Validate(v),
            IndefiniteCheckMode::Validate(None) => CheckMode::Validate(default.to_owned()),
            IndefiniteCheckMode::Normalize(Some(n)) => CheckMode::Normalize(n),
            IndefiniteCheckMode::Normalize(None) => CheckMode::Normalize(default.to_owned()),
        }
    }
}

/// The resolved mode: an omitted type is `default`.
pub open spec fn resolve_mode(m: ModeModel<Option<Seq<char>>>, default: Seq<char>) -> ModeModel<
    Seq<char>,
> {
    match m {
        ModeModel::Unchecked => ModeModel::Unchecked,
        ModeModel::Validate(t) => ModeModel::Validate(t.unwrap_or(default)),
        ModeModel::Normalize(t) => ModeModel::Normalize(t.unwrap_or(default)),
    }
}

impl Default for CheckMode {
    fn default() -> (r: Self)
        ensures
            r@ == ModeModel::<Seq<char>>::Unchecked,
    {
        CheckMode::Unchecked
    }
}

impl Default for IndefiniteCheckMode {
    fn default() -> (r: Self)
        ensures
            r@ == ModeModel::<Option<Seq<char>>>::Unchecked,
    {
        IndefiniteCheckMode::Unchecked
    }
}

} // verus!
