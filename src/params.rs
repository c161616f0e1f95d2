//! The parameter model: the options of a declaration, parsed from its
//! key/value arguments, with conflicting or unknown options rejected.
use vstd::prelude::*;
use crate::check_mode::{opt_view, IndefiniteCheckMode, ModeConflict, ModeModel};
use crate::impls::{
    DelegatingImplOption, ImplClone, ImplDebug, ImplDisplay, ImplOption, ImplOrd, ImplSerde, Impls,
    InvalidChoice,
};
use crate::symbol::Symbol;
use crate::syntax::type_checks;

verus! {

/// The value of a `key = value` argument.
pub enum Lit {
    /// A string literal, with its content.
    Str(String),
    /// Any other literal.
    Other,
}

/// One argument of a declaration, as written.
pub enum Arg {
    /// A bare key: `serde`.
    Path(String),
    /// A key with a value: `ref = "NameRef"`.
    NameValue(String, Lit),
    /// A key with a parenthesized list: `ref_attr(derive(Default))`.
    List(String, String),
}

/// The mathematical form of an argument.
pub enum ArgView {
    Path(Seq<char>),
    NameValue(Seq<char>, Option<Seq<char>>),
    List(Seq<char>, Seq<char>),
}

impl View for Arg {
    type V = ArgView;

    open spec fn view(&self) -> ArgView {
        match self {
            Arg::Path(k) => ArgView::Path(k@),
            Arg::NameValue(k, Lit::Str(v)) => ArgView::NameValue(k@, Some(v@)),
            Arg::NameValue(k, Lit::Other) => ArgView::NameValue(k@, None),
            Arg::List(k, v) => ArgView::List(k@, v@),
        }
    }
}

/// Which standard-library roots generated code names.
#[derive(Clone, Copy, Debug, PartialEq, Eq, Structural)]
pub enum StdLib {
    /// `std` for both.
    Std,
    /// `core` and `alloc`, for restricted environments.
    NoStd,
}

impl StdLib {
    /// The root of the core items.
    pub fn core_root(&self) -> (r: &'static str)
        ensures
            r@ == (if *self == StdLib::Std { "std"@ } else { "core"@ }),
    {
        match self {
            StdLib::Std => "std",
            StdLib::NoStd => "core",
        }
    }

    /// The root of the allocating items.
    pub fn alloc_root(&self) -> (r: &'static str)
        ensures
            r@ == (if *self == StdLib::Std { "std"@ } else { "alloc"@ }),
    {
        match self {
            StdLib::Std => "std",
            StdLib::NoStd => "alloc",
        }
    }
}

/// What is wrong with one argument.
#[derive(Clone, Copy, Debug, PartialEq, Eq, Structural)]
pub enum ParamErrorKind {
    /// An unknown key, or a known key in a form it does not take.
    Unsupported,
    /// The key needs a string value.
    ExpectedString(Symbol),
    /// The validator or normalizer conflicts with an earlier one.
    Conflict(ModeConflict),
    /// The value of a policy key is not one of its choices.
    InvalidChoice(Symbol, InvalidChoice),
    /// The value of the key should name a type, and does not parse as one.
    InvalidType(Symbol),
}

/// A rejected declaration: what is wrong, and the index of the argument.
#[derive(Clone, Copy, Debug, PartialEq, Eq, Structural)]
pub struct ParamError {
    pub at: usize,
    pub kind: ParamErrorKind,
}

/// The options of a declaration of an owned/borrowed pair.
pub struct Params {
    pub ref_ty: Option<String>,
    pub ref_doc: Vec<String>,
    pub ref_attrs: Vec<String>,
    pub owned_attrs: Vec<String>,
    pub std_lib: StdLib,
    pub check_mode: IndefiniteCheckMode,
    pub expose_inner: bool,
    pub impls: Impls,
}

/// The mathematical form of [`Params`].
pub struct ParamsView {
    pub ref_ty: Option<Seq<char>>,
    pub ref_doc: Seq<Seq<char>>,
    pub ref_attrs: Seq<Seq<char>>,
    pub owned_attrs: Seq<Seq<char>>,
    pub std_lib: StdLib,
    pub check_mode: ModeModel<Option<Seq<char>>>,
    pub expose_inner: bool,
    pub impls: Impls,
}

/// The characters of each string.
pub open spec fn strings_view(v: Seq<String>) -> Seq<Seq<char>> {
    v.map_values(|s: String| s@)
}

impl View for Params {
    type V = ParamsView;

    open spec fn view(&self) -> ParamsView {
        ParamsView {
            ref_ty: opt_view(self.ref_ty),
            ref_doc: strings_view(self.ref_doc@),
            ref_attrs: strings_view(self.ref_attrs@),
            owned_attrs: strings_view(self.owned_attrs@),
            std_lib: self.std_lib,
            check_mode: self.check_mode@,
            expose_inner: self.expose_inner,
            impls: self.impls,
        }
    }
}

/// The options of a declaration with no arguments.
pub open spec fn default_params() -> ParamsView {
    ParamsView {
        ref_ty: None,
        ref_doc: Seq::empty(),
        ref_attrs: Seq::empty(),
        owned_attrs: Seq::empty(),
        std_lib: StdLib::Std,
        check_mode: ModeModel::Unchecked,
        expose_inner: true,
        impls: Impls::spec_default(),
    }
}

/// The mode after declaring a validator (`normalize` false) or a normalizer.
pub open spec fn set_mode(
    m: ModeModel<Option<Seq<char>>>,
    normalize: bool,
    ty: Option<Seq<char>>,
) -> Result<ModeModel<Option<Seq<char>>>, ModeConflict> {
    match m {
        ModeModel::Unchecked => Ok(
            if normalize {
                ModeModel::Normalize(ty)
            } else {
                ModeModel::Validate(ty)
            },
        ),
        ModeModel::Validate(_) => Err(
            if normalize {
                ModeConflict::Exclusive
            } else {
                ModeConflict::Repeated(Symbol::Validator)
            },
        ),
        ModeModel::Normalize(_) => Err(
            if normalize {
                ModeConflict::Repeated(Symbol::Normalizer)
            } else {
                ModeConflict::Exclusive
            },
        ),
    }
}

/// The options with the check mode updated, or the conflict.
pub open spec fn with_mode(p: ParamsView, normalize: bool, ty: Option<Seq<char>>) -> Result<
    ParamsView,
    ParamErrorKind,
> {
    match set_mode(p.check_mode, normalize, ty) {
        Ok(m) => Ok(ParamsView { check_mode: m, ..p }),
        Err(c) => Err(ParamErrorKind::Conflict(c)),
    }
}

/// The options after a policy key with a string value.
pub open spec fn with_policy(p: ParamsView, key: Symbol, v: Seq<char>) -> Result<
    ParamsView,
    ParamErrorKind,
> {
    match key {
        Symbol::Clone => match ImplOption::spec_parse(v) {
            Ok(o) => Ok(ParamsView { impls: Impls { clone: ImplClone(o), ..p.impls }, ..p }),
            Err(e) => Err(ParamErrorKind::InvalidChoice(key, e)),
        },
        Symbol::Serde => match ImplOption::spec_parse(v) {
            Ok(o) => Ok(ParamsView { impls: Impls { serde: ImplSerde(o), ..p.impls }, ..p }),
            Err(e) => Err(ParamErrorKind::InvalidChoice(key, e)),
        },
        Symbol::Debug => match DelegatingImplOption::spec_parse(v) {
            Ok(o) => Ok(ParamsView { impls: Impls { debug: ImplDebug(o), ..p.impls }, ..p }),
            Err(e) => Err(ParamErrorKind::InvalidChoice(key, e)),
        },
        Symbol::Display => match DelegatingImplOption::spec_parse(v) {
            Ok(o) => Ok(ParamsView { impls: Impls { display: ImplDisplay(o), ..p.impls }, ..p }),
            Err(e) => Err(ParamErrorKind::InvalidChoice(key, e)),
        },
        _ => match DelegatingImplOption::spec_parse(v) {
            Ok(o) => Ok(ParamsView { impls: Impls { ord: ImplOrd(o), ..p.impls }, ..p }),
            Err(e) => Err(ParamErrorKind::InvalidChoice(key, e)),
        },
    }
}

/// Whether the value of the key names a type.
pub open spec fn names_type(s: Symbol) -> bool {
    s == Symbol::Ref || s == Symbol::Validator || s == Symbol::Normalizer
}

/// The options after one more argument, or what is wrong with it;
/// `value_is_type` tells whether the argument's value parses as a type.
pub open spec fn apply_arg(p: ParamsView, a: ArgView, value_is_type: bool) -> Result<
    ParamsView,
    ParamErrorKind,
> {
    match a {
        ArgView::Path(k) => match Symbol::spec_lookup(k) {
            Some(Symbol::Serde) => Ok(
                ParamsView {
                    impls: Impls { serde: ImplSerde(ImplOption::Implement), ..p.impls },
                    ..p
                },
            ),
            Some(Symbol::Validator) => with_mode(p, false, None),
            Some(Symbol::Normalizer) => with_mode(p, true, None),
            Some(Symbol::NoStd) => Ok(ParamsView { std_lib: StdLib::NoStd, ..p }),
            Some(Symbol::NoExpose) => Ok(ParamsView { expose_inner: false, ..p }),
            _ => Err(ParamErrorKind::Unsupported),
        },
        ArgView::NameValue(k, v) => match Symbol::spec_lookup(k) {
            Some(s) => if s == Symbol::Ref || s == Symbol::RefDoc || s == Symbol::Validator || s
                == Symbol::Normalizer || s == Symbol::Clone || s == Symbol::Serde || s
                == Symbol::Debug || s == Symbol::Display || s == Symbol::Ord {
                match v {
                    None => Err(ParamErrorKind::ExpectedString(s)),
                    Some(t) => if names_type(s) && !value_is_type {
                        Err(ParamErrorKind::InvalidType(s))
                    } else {
                        match s {
                            Symbol::Ref => Ok(ParamsView { ref_ty: Some(t), ..p }),
                            Symbol::RefDoc => Ok(ParamsView { ref_doc: p.ref_doc.push(t), ..p }),
                            Symbol::Validator => with_mode(p, false, Some(t)),
                            Symbol::Normalizer => with_mode(p, true, Some(t)),
                            _ => with_policy(p, s, t),
                        }
                    },
                }
            } else {
                Err(ParamErrorKind::Unsupported)
            },
            None => Err(ParamErrorKind::Unsupported),
        },
        ArgView::List(k, v) => match Symbol::spec_lookup(k) {
            Some(Symbol::RefAttr) => Ok(ParamsView { ref_attrs: p.ref_attrs.push(v), ..p }),
            Some(Symbol::OwnedAttr) => Ok(ParamsView { owned_attrs: p.owned_attrs.push(v), ..p }),
            _ => Err(ParamErrorKind::Unsupported),
        },
    }
}

/// The key of an argument.
pub open spec fn key_of(a: ArgView) -> Seq<char> {
    match a {
        ArgView::Path(k) => k,
        ArgView::NameValue(k, _) => k,
        ArgView::List(k, _) => k,
    }
}

/// The outcome of applying the first `n` arguments from `start`, left to
/// right, where `step` applies one argument given whether its value parses
/// as a type (`value_is_type[i]` for the `i`-th): the final state, or the
/// first error with the index of its argument.
pub open spec fn fold_args<P>(
    start: P,
    step: spec_fn(P, ArgView, bool) -> Result<P, ParamErrorKind>,
    args: Seq<Arg>,
    value_is_type: Seq<bool>,
    n: int,
) -> Result<P, ParamError>
    decreases n,
{
    if n <= 0 {
        Ok(start)
    } else {
        match fold_args(start, step, args, value_is_type, n - 1) {
            Ok(p) => match step(p, args[n - 1]@, value_is_type[n - 1]) {
                Ok(q) => Ok(q),
                Err(kind) => Err(ParamError { at: (n - 1) as usize, kind }),
            },
            Err(e) => Err(e),
        }
    }
}

/// Once an argument is in error, every longer prefix fails with that error.
pub proof fn lemma_error_persists<P>(
    start: P,
    step: spec_fn(P, ArgView, bool) -> Result<P, ParamErrorKind>,
    args: Seq<Arg>,
    value_is_type: Seq<bool>,
    k: int,
    n: int,
)
    requires
        0 <= k <= n,
        fold_args(start, step, args, value_is_type, k) is Err,
    ensures
        fold_args(start, step, args, value_is_type, n) == fold_args(
            start,
            step,
            args,
            value_is_type,
            k,
        ),
    decreases n - k,
{
    if n > k {
        lemma_error_persists(start, step, args, value_is_type, k, n - 1);
    }
}

/// The options given by the first `n` arguments, or the first error.
pub open spec fn parse_prefix(args: Seq<Arg>, value_is_type: Seq<bool>, n: int) -> Result<
    ParamsView,
    ParamError,
> {
    fold_args(
        default_params(),
        |p: ParamsView, a: ArgView, ok: bool| apply_arg(p, a, ok),
        args,
        value_is_type,
        n,
    )
}

/// Whether `r` is the outcome `s` of a parse.
pub open spec fn parsed_as(r: Result<Params, ParamError>, s: Result<ParamsView, ParamError>) -> bool {
    match s {
        Ok(p) => r matches Ok(q) && q@ == p,
        Err(e) => r == Err::<Params, ParamError>(e),
    }
}

/// An argument with an unknown key is rejected as unsupported, at its index,
/// whatever comes after it.
pub proof fn lemma_unknown_key_rejected(args: Seq<Arg>, value_is_type: Seq<bool>, i: int)
    requires
        0 <= i < args.len(),
        parse_prefix(args, value_is_type, i) is Ok,
        Symbol::spec_lookup(key_of(args[i]@)) is None,
    ensures
        parse_prefix(args, value_is_type, args.len() as int) == Err::<ParamsView, ParamError>(
            ParamError { at: i as usize, kind: ParamErrorKind::Unsupported },
        ),
{
    let step = |p: ParamsView, a: ArgView, ok: bool| apply_arg(p, a, ok);
    assert(fold_args(default_params(), step, args, value_is_type, i + 1) is Err);
    lemma_error_persists(default_params(), step, args, value_is_type, i + 1, args.len() as int);
}

/// Whether the argument declares a validator (`normalize` false) or a
/// normalizer, bare or naming a type.
pub open spec fn declares_check(a: ArgView, normalize: bool, value_is_type: bool) -> bool {
    let sym = if normalize {
        Symbol::Normalizer
    } else {
        Symbol::Validator
    };
    Symbol::spec_lookup(key_of(a)) == Some(sym) && (a is Path || (a matches ArgView::NameValue(
        _,
        Some(_),
    ) && value_is_type))
}

/// The conflict of declaring a validator (`normalize` false) or a
/// normalizer over a mode that already has one of them.
pub open spec fn conflict_with(m: ModeModel<Option<Seq<char>>>, normalize: bool) -> ModeConflict {
    if m is Validate && !normalize {
        ModeConflict::Repeated(Symbol::Validator)
    } else if m is Normalize && normalize {
        ModeConflict::Repeated(Symbol::Normalizer)
    } else {
        ModeConflict::Exclusive
    }
}

/// A second validator or normalizer is rejected: the same one repeated, or
/// the two together.
pub proof fn lemma_second_check_rejected(
    args: Seq<Arg>,
    value_is_type: Seq<bool>,
    i: int,
    normalize: bool,
)
    requires
        0 <= i < args.len(),
        i < value_is_type.len(),
        parse_prefix(args, value_is_type, i) matches Ok(p) && !(p.check_mode is Unchecked),
        declares_check(args[i]@, normalize, value_is_type[i]),
    ensures
        parse_prefix(args, value_is_type, args.len() as int) == Err::<ParamsView, ParamError>(
            ParamError {
                at: i as usize,
                kind: ParamErrorKind::Conflict(
                    conflict_with(parse_prefix(args, value_is_type, i)->Ok_0.check_mode, normalize),
                ),
            },
        ),
{
    let step = |p: ParamsView, a: ArgView, ok: bool| apply_arg(p, a, ok);
    assert(fold_args(default_params(), step, args, value_is_type, i + 1) is Err);
    lemma_error_persists(default_params(), step, args, value_is_type, i + 1, args.len() as int);
}

/// Whether `v` is outside the choices of the policy key `key`, and the error
/// that names its choices.
pub open spec fn choice_error(key: Symbol, v: Seq<char>) -> Option<InvalidChoice> {
    if key == Symbol::Clone || key == Symbol::Serde {
        match ImplOption::spec_parse(v) {
            Ok(_) => None,
            Err(e) => Some(e),
        }
    } else {
        match DelegatingImplOption::spec_parse(v) {
            Ok(_) => None,
            Err(e) => Some(e),
        }
    }
}

/// A policy value outside its choices is rejected, with the error that
/// names the valid choices.
pub proof fn lemma_bad_choice_rejected(
    args: Seq<Arg>,
    value_is_type: Seq<bool>,
    i: int,
    key: Symbol,
    v: Seq<char>,
)
    requires
        0 <= i < args.len(),
        parse_prefix(args, value_is_type, i) is Ok,
        key == Symbol::Clone || key == Symbol::Serde || key == Symbol::Debug || key
            == Symbol::Display || key == Symbol::Ord,
        args[i]@ matches ArgView::NameValue(k, Some(t)) && Symbol::spec_lookup(k) == Some(key) && t
            == v,
        choice_error(key, v) is Some,
    ensures
        parse_prefix(args, value_is_type, args.len() as int) == Err::<ParamsView, ParamError>(
            ParamError {
                at: i as usize,
                kind: ParamErrorKind::InvalidChoice(key, choice_error(key, v)->Some_0),
            },
        ),
        choice_error(key, v) == Some(
            if key == Symbol::Clone || key == Symbol::Serde {
                InvalidChoice::ImplOrOmit
            } else {
                InvalidChoice::ImplOwnedOrOmit
            },
        ),
{
    let step = |p: ParamsView, a: ArgView, ok: bool| apply_arg(p, a, ok);
    assert(fold_args(default_params(), step, args, value_is_type, i + 1) is Err);
    lemma_error_persists(default_params(), step, args, value_is_type, i + 1, args.len() as int);
}

impl Params {
    /// The options of a declaration with no arguments.
    pub fn new() -> (r: Params)
        ensures
            r@ == default_params(),
    {
        let r = Params {
            ref_ty: None,
            ref_doc: Vec::new(),
            ref_attrs: Vec::new(),
            owned_attrs: Vec::new(),
            std_lib: StdLib::Std,
            check_mode: IndefiniteCheckMode::Unchecked,
            expose_inner: true,
            impls: Impls::default(),
        };
        assert(r@.ref_doc =~= Seq::<Seq<char>>::empty());
        assert(r@.ref_attrs =~= Seq::<Seq<char>>::empty());
        assert(r@.owned_attrs =~= Seq::<Seq<char>>::empty());
        r
    }

    fn set_policy(&mut self, key: Symbol, v: &str) -> (r: Result<(), ParamErrorKind>)
        requires
            key == Symbol::Clone || key == Symbol::Serde || key == Symbol::Debug || key
                == Symbol::Display || key == Symbol::Ord,
        ensures
            match with_policy(old(self)@, key, v@) {
                Ok(p) => r is Ok && final(self)@ == p,
                Err(e) => r == Err::<(), ParamErrorKind>(e),
            },
    {
        match key {
            Symbol::Clone => match ImplOption::from_str(v) {
                Ok(o) => {
                    self.impls.clone = ImplClone(o);
                    Ok(())
                },
                Err(e) => Err(ParamErrorKind::InvalidChoice(key, e)),
            },
            Symbol::Serde => match ImplOption::from_str(v) {
                Ok(o) => {
                    self.impls.serde = ImplSerde(o);
                    Ok(())
                },
                Err(e) => Err(ParamErrorKind::InvalidChoice(key, e)),
            },
            Symbol::Debug => match DelegatingImplOption::from_str(v) {
                Ok(o) => {
                    self.impls.debug = ImplDebug(o);
                    Ok(())
                },
                Err(e) => Err(ParamErrorKind::InvalidChoice(key, e)),
            },
            Symbol::Display => match DelegatingImplOption::from_str(v) {
                Ok(o) => {
                    self.impls.display = ImplDisplay(o);
                    Ok(())
                },
                Err(e) => Err(ParamErrorKind::InvalidChoice(key, e)),
            },
            _ => match DelegatingImplOption::from_str(v) {
                Ok(o) => {
                    self.impls.ord = ImplOrd(o);
                    Ok(())
                },
                Err(e) => Err(ParamErrorKind::InvalidChoice(key, e)),
            },
        }
    }

    fn set_mode(&mut self, normalize: bool, ty: Option<String>) -> (r: Result<(), ParamErrorKind>)
        ensures
            match with_mode(old(self)@, normalize, opt_view(ty)) {
                Ok(p) => r is Ok && final(self)@ == p,
                Err(e) => r == Err::<(), ParamErrorKind>(e),
            },
    {
        let set = if normalize {
            self.check_mode.try_set_normalizer(ty)
        } else {
            self.check_mode.try_set_validator(ty)
        };
        match set {
            Ok(()) => Ok(()),
            Err(c) => Err(ParamErrorKind::Conflict(c)),
        }
    }

    /// Applies one argument to the options, given whether its value parses
    /// as a type.
    pub fn apply_with(&mut self, arg: &Arg, value_is_type: bool) -> (r: Result<(), ParamErrorKind>)
        ensures
            match apply_arg(old(self)@, arg@, value_is_type) {
                Ok(p) => r is Ok && final(self)@ == p,
                Err(e) => r == Err::<(), ParamErrorKind>(e),
            },
    {
        match arg {
            Arg::Path(k) => match Symbol::lookup(k.as_str()) {
                Some(Symbol::Serde) => {
                    self.impls.serde = ImplSerde(ImplOption::Implement);
                    Ok(())
                },
                Some(Symbol::Validator) => self.set_mode(false, None),
                Some(Symbol::Normalizer) => self.set_mode(true, None),
                Some(Symbol::NoStd) => {
                    self.std_lib = StdLib::NoStd;
                    Ok(())
                },
                Some(Symbol::NoExpose) => {
                    self.expose_inner = false;
                    Ok(())
                },
                _ => Err(ParamErrorKind::Unsupported),
            },
            Arg::NameValue(k, v) => match Symbol::lookup(k.as_str()) {
                Some(s) => {
                    if s == Symbol::Ref || s == Symbol::RefDoc || s == Symbol::Validator || s
                        == Symbol::Normalizer || s == Symbol::Clone || s == Symbol::Serde || s
                        == Symbol::Debug || s == Symbol::Display || s == Symbol::Ord {
                        match v {
                            Lit::Other => Err(ParamErrorKind::ExpectedString(s)),
                            Lit::Str(t) => if (s == Symbol::Ref || s == Symbol::Validator || s
                                == Symbol::Normalizer) && !value_is_type {
                                Err(ParamErrorKind::InvalidType(s))
                            } else {
                                match s {
                                Symbol::Ref => {
                                    self.ref_ty = Some(t.clone());
                                    Ok(())
                                },
                                Symbol::RefDoc => {
                                    let ghost before = self.ref_doc@;
                                    self.ref_doc.push(t.clone());
                                    proof {
                                        assert(strings_view(self.ref_doc@) =~= strings_view(
                                            before,
                                        ).push(t@));
                                    }
                                    Ok(())
                                },
                                Symbol::Validator => self.set_mode(false, Some(t.clone())),
                                Symbol::Normalizer => self.set_mode(true, Some(t.clone())),
                                _ => self.set_policy(s, t.as_str()),
                                }
                            },
                        }
                    } else {
                        Err(ParamErrorKind::Unsupported)
                    }
                },
                None => Err(ParamErrorKind::Unsupported),
            },
            Arg::List(k, v) => match Symbol::lookup(k.as_str()) {
                Some(Symbol::RefAttr) => {
                    let ghost before = self.ref_attrs@;
                    self.ref_attrs.push(v.clone());
                    proof {
                        assert(strings_view(self.ref_attrs@) =~= strings_view(before).push(v@));
                    }
                    Ok(())
                },
                Some(Symbol::OwnedAttr) => {
                    let ghost before = self.owned_attrs@;
                    self.owned_attrs.push(v.clone());
                    proof {
                        assert(strings_view(self.owned_attrs@) =~= strings_view(before).push(v@));
                    }
                    Ok(())
                },
                _ => Err(ParamErrorKind::Unsupported),
            },
        }
    }

    /// Parses the arguments of a declaration, left to right, given for each
    /// whether its value parses as a type; the first argument in error stops
    /// the parse.
    pub fn parse_with(args: &Vec<Arg>, value_is_type: &Vec<bool>) -> (r: Result<Params, ParamError>)
        requires
            value_is_type@.len() == args@.len(),
        ensures
            parsed_as(r, parse_prefix(args@, value_is_type@, args@.len() as int)),
    {
        let mut params = Params::new();
        let mut i: usize = 0;
        while i < args.len()
            invariant
                i <= args@.len(),
                value_is_type@.len() == args@.len(),
                parse_prefix(args@, value_is_type@, i as int) == Ok::<ParamsView, ParamError>(
                    params@,
                ),
            decreases args@.len() - i,
        {
            match params.apply_with(&args[i], value_is_type[i]) {
                Ok(()) => {},
                Err(kind) => {
                    proof {
                        lemma_error_persists(
                            default_params(),
                            |p: ParamsView, a: ArgView, ok: bool| apply_arg(p, a, ok),
                            args@,
                            value_is_type@,
                            i + 1,
                            args@.len() as int,
                        );
                    }
                    return Err(ParamError { at: i, kind });
                },
            }
            i = i + 1;
        }
        Ok(params)
    }

    /// Parses the arguments of a declaration, checking with syn whether the
    /// values of `ref`, `validator` and `normalizer` are types. The outcome
    /// is the parse for some answers of that check; the laws of this module
    /// hold whatever it answers.
    pub fn parse(args: &Vec<Arg>) -> (r: Result<Params, ParamError>)
        ensures
            exists|value_is_type: Seq<bool>|
                value_is_type.len() == args@.len() && parsed_as(
                    r,
                    #[trigger] parse_prefix(args@, value_is_type, args@.len() as int),
                ),
    {
        let checks = type_checks(args);
        Self::parse_with(args, &checks)
    }
}

impl Default for Params {
    fn default() -> (r: Self)
        ensures
            r@ == default_params(),
    {
        Params::new()
    }
}

impl Default for StdLib {
    fn default() -> (r: Self)
        ensures
            r == StdLib::Std,
    {
        StdLib::Std
    }
}

} // verus!
