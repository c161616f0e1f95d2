//! Resolution of a declaration into a generator: the parameters, the field,
//! the borrowed name and the check mode brought together, and the plans of
//! the items to emit.
use vstd::prelude::*;
use crate::check_mode::{opt_view, resolve_mode, CheckMode, IndefiniteCheckMode, ModeModel};
use crate::impls::{
    DelegatingImplOption, ImplDebug, ImplDisplay, ImplOption, ImplOrd, ImplSerde, Impls,
};
use crate::check_mode::ModeConflict;
use crate::impls::InvalidChoice;
use crate::params::{
    fold_args, key_of, lemma_error_persists, set_mode, Arg, ArgView, Lit, ParamError,
    ParamErrorKind, Params, StdLib,
};
use crate::plan::{
    owned_candidates, owned_plan, owned_wants, ref_candidates, ref_plan, ref_wants, ModeKind,
    OwnedItem, OwnedShape, RefItem, RefShape,
};
use crate::shape::{
    borrowed_name_of, create_field_if_none, field_matches, get_field_info,
    infer_ref_type_from_owned_name, Field, ShapeError, StructDecl,
};
use crate::symbol::Symbol;
use crate::syntax::type_checks;

verus! {

/// The kind of a check mode.
pub open spec fn kind_of<T>(m: ModeModel<T>) -> ModeKind {
    match m {
        ModeModel::Unchecked => ModeKind::Unchecked,
        ModeModel::Validate(_) => ModeKind::Validate,
        ModeModel::Normalize(_) => ModeKind::Normalize,
    }
}

/// The kind of a resolved check mode.
pub fn mode_kind(m: &CheckMode) -> (r: ModeKind)
    ensures
        r == kind_of(m@),
{
    match m {
        CheckMode::Unchecked => ModeKind::Unchecked,
        CheckMode::Validate(_) => ModeKind::Validate,
        CheckMode::Normalize(_) => ModeKind::Normalize,
    }
}

/// A resolved declaration of an owned/borrowed pair.
pub struct CodeGen {
    pub check_mode: CheckMode,
    /// The owned type's name.
    pub name: String,
    pub field: Field,
    pub owned_attrs: Vec<String>,
    pub ref_doc: Vec<String>,
    pub ref_attrs: Vec<String>,
    /// The borrowed type's name.
    pub ref_ty: String,
    pub std_lib: StdLib,
    pub expose_inner: bool,
    pub impls: Impls,
}

/// What the generator emits: the owned type's items, then the borrowed
/// type's.
pub struct Emission {
    pub owned: Vec<OwnedItem>,
    pub borrowed: Vec<RefItem>,
}

impl CodeGen {
    /// What the owned type's plan depends on.
    pub open spec fn owned_shape(&self) -> OwnedShape {
        OwnedShape {
            mode: kind_of(self.check_mode@),
            expose_inner: self.expose_inner,
            impls: self.impls,
        }
    }

    /// What the borrowed type's plan depends on.
    pub open spec fn ref_shape(&self) -> RefShape {
        RefShape { mode: kind_of(self.check_mode@), has_owned: true, impls: self.impls }
    }

    /// The items of the owned type.
    pub fn owned(&self) -> (r: Vec<OwnedItem>)
        ensures
            r@ == owned_candidates().filter(|item: OwnedItem| owned_wants(self.owned_shape(), item)),
    {
        let shape = OwnedShape {
            mode: mode_kind(&self.check_mode),
            expose_inner: self.expose_inner,
            impls: self.impls,
        };
        owned_plan(&shape)
    }

    /// The items of the borrowed type.
    pub fn borrowed(&self) -> (r: Vec<RefItem>)
        ensures
            r@ == ref_candidates().filter(|item: RefItem| ref_wants(self.ref_shape(), item)),
    {
        let shape = RefShape { mode: mode_kind(&self.check_mode), has_owned: true, impls: self.impls };
        ref_plan(&shape)
    }

    /// Everything the declaration emits: the owned type's items followed by
    /// the borrowed type's.
    pub fn generate(&self) -> (r: Emission)
        ensures
            r.owned@ == owned_candidates().filter(
                |item: OwnedItem| owned_wants(self.owned_shape(), item),
            ),
            r.borrowed@ == ref_candidates().filter(|item: RefItem| ref_wants(self.ref_shape(), item)),
    {
        let owned = self.owned();
        let borrowed = self.borrowed();
        Emission { owned, borrowed }
    }
}

/// The borrowed name that a declaration ends up with.
pub open spec fn chosen_ref_name(given: Option<Seq<char>>, owned_name: Seq<char>) -> Seq<char> {
    match given {
        Some(t) => t,
        None => borrowed_name_of(owned_name),
    }
}

/// Whether `f` is the field synthesized for a declaration without fields.
pub open spec fn is_default_field(f: Field, ty: Seq<char>) -> bool {
    f.name is Unnamed && f.ty@ == ty && f.attrs@.len() == 0
}

impl Params {
    /// Resolves the options against a declaration: synthesizes the field when
    /// there is none, derives the borrowed name when none was given, and
    /// infers the declared type as validator or normalizer when none was
    /// named.
    pub fn build(self, decl: StructDecl) -> (r: Result<CodeGen, ShapeError>)
        ensures
            decl.fields@.len() > 1 ==> r == Err::<CodeGen, ShapeError>(ShapeError::TooManyFields),
            decl.fields@.len() <= 1 ==> (r matches Ok(g) && {
                &&& g.name@ == decl.name@
                &&& g.ref_ty@ == chosen_ref_name(self@.ref_ty, decl.name@)
                &&& g.check_mode@ == resolve_mode(self@.check_mode, decl.name@)
                &&& decl.fields@.len() == 1 ==> field_matches(g.field, decl.fields@[0])
                &&& decl.fields@.len() == 0 ==> is_default_field(g.field, "String"@)
                &&& g.owned_attrs@ == self.owned_attrs@
                &&& g.ref_doc@ == self.ref_doc@
                &&& g.ref_attrs@ == self.ref_attrs@
                &&& g.std_lib == self.std_lib
                &&& g.expose_inner == self.expose_inner
                &&& g.impls == self.impls
            }),
    {
        let StructDecl { name, fields } = decl;
        let mut fields = fields;
        create_field_if_none(&mut fields, "String");
        let field = match get_field_info(fields) {
            Ok(f) => f,
            Err(e) => {
                return Err(e);
            },
        };
        let ref_ty = match self.ref_ty {
            Some(t) => t,
            None => infer_ref_type_from_owned_name(name.as_str()),
        };
        let check_mode = self.check_mode.infer_validator_if_missing(name.as_str());
        Ok(
            CodeGen {
                check_mode,
                name,
                field,
                owned_attrs: self.owned_attrs,
                ref_doc: self.ref_doc,
                ref_attrs: self.ref_attrs,
                ref_ty,
                std_lib: self.std_lib,
                expose_inner: self.expose_inner,
                impls: self.impls,
            },
        )
    }
}

/// The options of a borrowed-only declaration.
pub struct ParamsRef {
    pub std_lib: StdLib,
    pub check_mode: IndefiniteCheckMode,
    pub impls: Impls,
}

/// The mathematical form of [`ParamsRef`].
pub struct ParamsRefView {
    pub std_lib: StdLib,
    pub check_mode: ModeModel<Option<Seq<char>>>,
    pub impls: Impls,
}

impl View for ParamsRef {
    type V = ParamsRefView;

    open spec fn view(&self) -> ParamsRefView {
        ParamsRefView { std_lib: self.std_lib, check_mode: self.check_mode@, impls: self.impls }
    }
}

/// The options of a borrowed-only declaration with no arguments.
pub open spec fn default_ref_params() -> ParamsRefView {
    ParamsRefView {
        std_lib: StdLib::Std,
        check_mode: ModeModel::Unchecked,
        impls: Impls::spec_default(),
    }
}

/// The borrowed-only options after a policy key with a string value: every
/// policy takes `impl` or `omit` only.
pub open spec fn with_ref_policy(p: ParamsRefView, key: Symbol, v: Seq<char>) -> Result<
    ParamsRefView,
    ParamErrorKind,
> {
    match ImplOption::spec_parse(v) {
        Err(e) => Err(ParamErrorKind::InvalidChoice(key, e)),
        Ok(o) => {
            let d = match o {
                ImplOption::Implement => DelegatingImplOption::Implement,
                ImplOption::Omit => DelegatingImplOption::Omit,
            };
            match key {
                Symbol::Debug => Ok(ParamsRefView { impls: Impls { debug: ImplDebug(d), ..p.impls }, ..p }),
                Symbol::Display => Ok(
                    ParamsRefView { impls: Impls { display: ImplDisplay(d), ..p.impls }, ..p },
                ),
                Symbol::Ord => Ok(ParamsRefView { impls: Impls { ord: ImplOrd(d), ..p.impls }, ..p }),
                _ => Ok(ParamsRefView { impls: Impls { serde: ImplSerde(o), ..p.impls }, ..p }),
            }
        },
    }
}

/// The borrowed-only options after one more argument, or what is wrong with
/// it. A borrowed-only type takes no normalizer: it could not hold a
/// rewritten value.
pub open spec fn apply_ref_arg(p: ParamsRefView, a: ArgView, value_is_type: bool) -> Result<
    ParamsRefView,
    ParamErrorKind,
> {
    match a {
        ArgView::Path(k) => match Symbol::spec_lookup(k) {
            Some(Symbol::Serde) => Ok(
                ParamsRefView {
                    impls: Impls { serde: ImplSerde(ImplOption::Implement), ..p.impls },
                    ..p
                },
            ),
            Some(Symbol::Validator) => match set_mode(p.check_mode, false, None) {
                Ok(m) => Ok(ParamsRefView { check_mode: m, ..p }),
                Err(c) => Err(ParamErrorKind::Conflict(c)),
            },
            Some(Symbol::NoStd) => Ok(ParamsRefView { std_lib: StdLib::NoStd, ..p }),
            _ => Err(ParamErrorKind::Unsupported),
        },
        ArgView::NameValue(k, v) => match Symbol::spec_lookup(k) {
            Some(s) => if s == Symbol::Validator || s == Symbol::Debug || s == Symbol::Display || s
                == Symbol::Ord || s == Symbol::Serde {
                match v {
                    None => Err(ParamErrorKind::ExpectedString(s)),
                    Some(t) => if s == Symbol::Validator {
                        if !value_is_type {
                            Err(ParamErrorKind::InvalidType(s))
                        } else {
                            match set_mode(p.check_mode, false, Some(t)) {
                                Ok(m) => Ok(ParamsRefView { check_mode: m, ..p }),
                                Err(c) => Err(ParamErrorKind::Conflict(c)),
                            }
                        }
                    } else {
                        with_ref_policy(p, s, t)
                    },
                }
            } else {
                Err(ParamErrorKind::Unsupported)
            },
            None => Err(ParamErrorKind::Unsupported),
        },
        ArgView::List(_, _) => Err(ParamErrorKind::Unsupported),
    }
}

/// The borrowed-only options given by the first `n` arguments, or the first
/// error; `value_is_type` tells for each argument whether its value parses
/// as a type.
pub open spec fn parse_ref_prefix(args: Seq<Arg>, value_is_type: Seq<bool>, n: int) -> Result<
    ParamsRefView,
    ParamError,
> {
    fold_args(
        default_ref_params(),
        |p: ParamsRefView, a: ArgView, ok: bool| apply_ref_arg(p, a, ok),
        args,
        value_is_type,
        n,
    )
}

/// Whether `r` is the outcome `s` of a borrowed-only parse.
pub open spec fn ref_parsed_as(
    r: Result<ParamsRef, ParamError>,
    s: Result<ParamsRefView, ParamError>,
) -> bool {
    match s {
        Ok(p) => r matches Ok(q) && q@ == p,
        Err(e) => r == Err::<ParamsRef, ParamError>(e),
    }
}

/// In a borrowed-only declaration, an argument with an unknown key is
/// rejected as unsupported, at its index, whatever comes after it.
pub proof fn lemma_ref_unknown_key_rejected(args: Seq<Arg>, value_is_type: Seq<bool>, i: int)
    requires
        0 <= i < args.len(),
        parse_ref_prefix(args, value_is_type, i) is Ok,
        Symbol::spec_lookup(key_of(args[i]@)) is None,
    ensures
        parse_ref_prefix(args, value_is_type, args.len() as int) == Err::<ParamsRefView, ParamError>(
            ParamError { at: i as usize, kind: ParamErrorKind::Unsupported },
        ),
{
    let step = |p: ParamsRefView, a: ArgView, ok: bool| apply_ref_arg(p, a, ok);
    assert(fold_args(default_ref_params(), step, args, value_is_type, i + 1) is Err);
    lemma_error_persists(default_ref_params(), step, args, value_is_type, i + 1, args.len() as int);
}

/// In a borrowed-only declaration, a second validator is rejected as a
/// repetition, and a normalizer is not accepted at all.
pub proof fn lemma_ref_second_validator_rejected(args: Seq<Arg>, value_is_type: Seq<bool>, i: int)
    requires
        0 <= i < args.len(),
        i < value_is_type.len(),
        parse_ref_prefix(args, value_is_type, i) matches Ok(p) && p.check_mode is Validate,
        Symbol::spec_lookup(key_of(args[i]@)) == Some(Symbol::Validator),
        args[i]@ is Path || (args[i]@ matches ArgView::NameValue(_, Some(_))
            && value_is_type[i]),
    ensures
        parse_ref_prefix(args, value_is_type, args.len() as int) == Err::<ParamsRefView, ParamError>(
            ParamError {
                at: i as usize,
                kind: ParamErrorKind::Conflict(ModeConflict::Repeated(Symbol::Validator)),
            },
        ),
{
    let step = |p: ParamsRefView, a: ArgView, ok: bool| apply_ref_arg(p, a, ok);
    assert(fold_args(default_ref_params(), step, args, value_is_type, i + 1) is Err);
    lemma_error_persists(default_ref_params(), step, args, value_is_type, i + 1, args.len() as int);
}

/// In a borrowed-only declaration, every policy takes `impl` or `omit`; any
/// other value is rejected with the error that names those two.
pub proof fn lemma_ref_bad_choice_rejected(
    args: Seq<Arg>,
    value_is_type: Seq<bool>,
    i: int,
    key: Symbol,
    v: Seq<char>,
)
    requires
        0 <= i < args.len(),
        parse_ref_prefix(args, value_is_type, i) is Ok,
        key == Symbol::Serde || key == Symbol::Debug || key == Symbol::Display || key
            == Symbol::Ord,
        args[i]@ matches ArgView::NameValue(k, Some(t)) && Symbol::spec_lookup(k) == Some(key) && t
            == v,
        ImplOption::spec_parse(v) is Err,
    ensures
        parse_ref_prefix(args, value_is_type, args.len() as int) == Err::<ParamsRefView, ParamError>(
            ParamError {
                at: i as usize,
                kind: ParamErrorKind::InvalidChoice(key, InvalidChoice::ImplOrOmit),
            },
        ),
{
    let step = |p: ParamsRefView, a: ArgView, ok: bool| apply_ref_arg(p, a, ok);
    assert(fold_args(default_ref_params(), step, args, value_is_type, i + 1) is Err);
    lemma_error_persists(default_ref_params(), step, args, value_is_type, i + 1, args.len() as int);
}

/// A resolved borrowed-only declaration.
pub struct RefCodeGen {
    pub check_mode: CheckMode,
    pub name: String,
    pub field: Field,
    pub std_lib: StdLib,
    pub impls: Impls,
}

impl RefCodeGen {
    /// What the plan depends on: there is no owned type.
    pub open spec fn shape(&self) -> RefShape {
        RefShape { mode: kind_of(self.check_mode@), has_owned: false, impls: self.impls }
    }

    /// The items of the borrowed-only type.
    pub fn tokens(&self) -> (r: Vec<RefItem>)
        ensures
            r@ == ref_candidates().filter(|item: RefItem| ref_wants(self.shape(), item)),
    {
        let shape = RefShape { mode: mode_kind(&self.check_mode), has_owned: false, impls: self.impls };
        ref_plan(&shape)
    }
}

impl ParamsRef {
    /// The options of a borrowed-only declaration with no arguments.
    pub fn new() -> (r: ParamsRef)
        ensures
            r@ == default_ref_params(),
    {
        ParamsRef {
            std_lib: StdLib::Std,
            check_mode: IndefiniteCheckMode::Unchecked,
            impls: Impls::default(),
        }
    }

    fn set_validator(&mut self, ty: Option<String>) -> (r: Result<(), ParamErrorKind>)
        ensures
            match set_mode(old(self)@.check_mode, false, opt_view(ty)) {
                Ok(m) => r is Ok && final(self)@ == ParamsRefView { check_mode: m, ..old(self)@ },
                Err(c) => r == Err::<(), ParamErrorKind>(ParamErrorKind::Conflict(c)),
            },
    {
        match self.check_mode.try_set_validator(ty) {
            Ok(()) => Ok(()),
            Err(c) => Err(ParamErrorKind::Conflict(c)),
        }
    }

    fn set_policy(&mut self, key: Symbol, v: &str) -> (r: Result<(), ParamErrorKind>)
        requires
            key == Symbol::Debug || key == Symbol::Display || key == Symbol::Ord || key
                == Symbol::Serde,
        ensures
            match with_ref_policy(old(self)@, key, v@) {
                Ok(p) => r is Ok && final(self)@ == p,
                Err(e) => r == Err::<(), ParamErrorKind>(e),
            },
    {
        match ImplOption::from_str(v) {
            Err(e) => Err(ParamErrorKind::InvalidChoice(key, e)),
            Ok(o) => {
                let d = DelegatingImplOption::from(o);
                match key {
                    Symbol::Debug => self.impls.debug = ImplDebug(d),
                    Symbol::Display => self.impls.display = ImplDisplay(d),
                    Symbol::Ord => self.impls.ord = ImplOrd(d),
                    _ => self.impls.serde = ImplSerde(o),
                }
                Ok(())
            },
        }
    }

    /// Applies one argument to the options, given whether its value parses
    /// as a type.
    pub fn apply_with(&mut self, arg: &Arg, value_is_type: bool) -> (r: Result<(), ParamErrorKind>)
        ensures
            match apply_ref_arg(old(self)@, arg@, value_is_type) {
                Ok(p) => r is Ok && final(self)@ == p,
                Err(e) => r == Err::<(), ParamErrorKind>(e),
            },
    {
        match arg {
            Arg::Path(k) => match Symbol::lookup(k.as_str()) {
                Some(Symbol::Serde) => {
                    self.impls.serde = ImplSerde(ImplOption::Implement);
                    Ok(())
                },
                Some(Symbol::Validator) => self.set_validator(None),
                Some(Symbol::NoStd) => {
                    self.std_lib = StdLib::NoStd;
                    Ok(())
                },
                _ => Err(ParamErrorKind::Unsupported),
            },
            Arg::NameValue(k, v) => match Symbol::lookup(k.as_str()) {
                Some(s) => {
                    if s == Symbol::Validator || s == Symbol::Debug || s == Symbol::Display || s
                        == Symbol::Ord || s == Symbol::Serde {
                        match v {
                            Lit::Other => Err(ParamErrorKind::ExpectedString(s)),
                            Lit::Str(t) => {
                                if s == Symbol::Validator {
                                    if value_is_type {
                                        self.set_validator(Some(t.clone()))
                                    } else {
                                        Err(ParamErrorKind::InvalidType(s))
                                    }
                                } else {
                                    self.set_policy(s, t.as_str())
                                }
                            },
                        }
                    } else {
                        Err(ParamErrorKind::Unsupported)
                    }
                },
                None => Err(ParamErrorKind::Unsupported),
            },
            Arg::List(_, _) => Err(ParamErrorKind::Unsupported),
        }
    }

    /// Parses the arguments of a borrowed-only declaration, left to right,
    /// given for each whether its value parses as a type; the first argument
    /// in error stops the parse.
    pub fn parse_with(args: &Vec<Arg>, value_is_type: &Vec<bool>) -> (r: Result<
        ParamsRef,
        ParamError,
    >)
        requires
            value_is_type@.len() == args@.len(),
        ensures
            ref_parsed_as(r, parse_ref_prefix(args@, value_is_type@, args@.len() as int)),
    {
        let mut params = ParamsRef::new();
        let mut i: usize = 0;
        while i < args.len()
            invariant
                i <= args@.len(),
                value_is_type@.len() == args@.len(),
                parse_ref_prefix(args@, value_is_type@, i as int) == Ok::<
                    ParamsRefView,
                    ParamError,
                >(params@),
            decreases args@.len() - i,
        {
            match params.apply_with(&args[i], value_is_type[i]) {
                Ok(()) => {},
                Err(kind) => {
                    proof {
                        lemma_error_persists(
                            default_ref_params(),
                            |p: ParamsRefView, a: ArgView, ok: bool| apply_ref_arg(p, a, ok),
                            args@,
                            value_is_type@,
                            i + 1,
                            args@.len() as int,
                        );
                    }
                    return Err(ParamError { at: i, kind });
                },
            }
            i = i + 1;
        }
        Ok(params)
    }

    /// Parses the arguments of a borrowed-only declaration, checking with syn
    /// whether a validator's value is a type. The outcome is the parse for
    /// some answers of that check; the laws above hold whatever it answers.
    pub fn parse(args: &Vec<Arg>) -> (r: Result<ParamsRef, ParamError>)
        ensures
            exists|value_is_type: Seq<bool>|
                value_is_type.len() == args@.len() && ref_parsed_as(
                    r,
                    #[trigger] parse_ref_prefix(args@, value_is_type, args@.len() as int),
                ),
    {
        let checks = type_checks(args);
        Self::parse_with(args, &checks)
    }

    /// Resolves the options against a declaration: the field defaults to a
    /// `str` slice, and a validator that was left out is the declared type.
    pub fn build(self, decl: StructDecl) -> (r: Result<RefCodeGen, ShapeError>)
        ensures
            decl.fields@.len() > 1 ==> r == Err::<RefCodeGen, ShapeError>(ShapeError::TooManyFields),
            decl.fields@.len() <= 1 ==> (r matches Ok(g) && {
                &&& g.name@ == decl.name@
                &&& g.check_mode@ == resolve_mode(self@.check_mode, decl.name@)
                &&& decl.fields@.len() == 1 ==> field_matches(g.field, decl.fields@[0])
                &&& decl.fields@.len() == 0 ==> is_default_field(g.field, "str"@)
                &&& g.std_lib == self.std_lib
                &&& g.impls == self.impls
            }),
    {
        let StructDecl { name, fields } = decl;
        let mut fields = fields;
        create_field_if_none(&mut fields, "str");
        let field = match get_field_info(fields) {
            Ok(f) => f,
            Err(e) => {
                return Err(e);
            },
        };
        let check_mode = self.check_mode.infer_validator_if_missing(name.as_str());
        Ok(RefCodeGen { check_mode, name, field, std_lib: self.std_lib, impls: self.impls })
    }
}

impl Default for ParamsRef {
    fn default() -> (r: Self)
        ensures
            r@ == default_ref_params(),
    {
        ParamsRef::new()
    }
}

} // verus!
