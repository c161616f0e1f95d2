//! The per-trait policy: for Clone, Debug, Display, Ord and Serde, whether the
//! owned and the borrowed type get an implementation.
use vstd::prelude::*;
use crate::text::str_eq;

verus! {

/// A binary policy: implement the trait, or leave it out.
#[derive(Clone, Copy, Debug, PartialEq, Eq, Structural)]
pub enum ImplOption {
    Implement,
    Omit,
}

/// A ternary policy: implement on both types, implement on the owned type
/// only (delegating to a hand-written borrowed implementation), or leave out.
#[derive(Clone, Copy, Debug, PartialEq, Eq, Structural)]
pub enum DelegatingImplOption {
    Implement,
    OwnedOnly,
    Omit,
}

/// The policy of the earlier declaration syntax: `auto`, `owned` or `none`.
#[derive(Clone, Copy, Debug, PartialEq, Eq, Structural)]
pub enum AutoImplOption {
    Auto,
    OwnedOnly,
    Disabled,
}

/// The value given for a policy key is not one of its choices.
#[derive(Clone, Copy, Debug, PartialEq, Eq, Structural)]
pub enum InvalidChoice {
    /// Valid values are `impl` or `omit`.
    ImplOrOmit,
    /// Valid values are `impl`, `owned`, or `omit`.
    ImplOwnedOrOmit,
    /// Valid values are `auto`, `owned`, or `none`.
    AutoOwnedOrNone,
}

impl InvalidChoice {
    /// The diagnostic that names the valid choices.
    pub fn message(&self) -> (r: &'static str)
        ensures
            r@ == match self {
                InvalidChoice::ImplOrOmit => "valid values are: `impl` or `omit`"@,
                InvalidChoice::ImplOwnedOrOmit => "valid values are: `impl`, `owned`, or `omit`"@,
                InvalidChoice::AutoOwnedOrNone => "valid values are: `auto`, `owned`, or `none`"@,
            },
    {
        match self {
            InvalidChoice::ImplOrOmit => "valid values are: `impl` or `omit`",
            InvalidChoice::ImplOwnedOrOmit => "valid values are: `impl`, `owned`, or `omit`",
            InvalidChoice::AutoOwnedOrNone => "valid values are: `auto`, `owned`, or `none`",
        }
    }
}

impl ImplOption {
    /// The choice spelled `s`.
    pub open spec fn spec_parse(s: Seq<char>) -> Result<ImplOption, InvalidChoice> {
        if s == "impl"@ {
            Ok(ImplOption::Implement)
        } else if s == "omit"@ {
            Ok(ImplOption::Omit)
        } else {
            Err(InvalidChoice::ImplOrOmit)
        }
    }

    /// Parses `impl` or `omit`.
    pub fn from_str(s: &str) -> (r: Result<ImplOption, InvalidChoice>)
        ensures
            r == Self::spec_parse(s@),
    {
        if str_eq(s, "impl") {
            Ok(ImplOption::Implement)
        } else if str_eq(s, "omit") {
            Ok(ImplOption::Omit)
        } else {
            Err(InvalidChoice::ImplOrOmit)
        }
    }

    /// Whether the implementation is emitted.
    pub fn emits(self) -> (r: bool)
        ensures
            r == (self == ImplOption::Implement),
    {
        match self {
            ImplOption::Implement => true,
            ImplOption::Omit => false,
        }
    }
}

impl DelegatingImplOption {
    /// The choice spelled `s`.
    pub open spec fn spec_parse(s: Seq<char>) -> Result<DelegatingImplOption, InvalidChoice> {
        if s == "impl"@ {
            Ok(DelegatingImplOption::Implement)
        } else if s == "owned"@ {
            Ok(DelegatingImplOption::OwnedOnly)
        } else if s == "omit"@ {
            Ok(DelegatingImplOption::Omit)
        } else {
            Err(InvalidChoice::ImplOwnedOrOmit)
        }
    }

    /// Parses `impl`, `owned` or `omit`.
    pub fn from_str(s: &str) -> (r: Result<DelegatingImplOption, InvalidChoice>)
        ensures
            r == Self::spec_parse(s@),
    {
        if str_eq(s, "impl") {
            Ok(DelegatingImplOption::Implement)
        } else if str_eq(s, "owned") {
            Ok(DelegatingImplOption::OwnedOnly)
        } else if str_eq(s, "omit") {
            Ok(DelegatingImplOption::Omit)
        } else {
            Err(InvalidChoice::ImplOwnedOrOmit)
        }
    }

    /// Whether the owned type gets an implementation.
    pub open spec fn spec_on_owned(self) -> bool {
        self != DelegatingImplOption::Omit
    }

    /// Whether the borrowed type gets an implementation.
    pub open spec fn spec_on_borrowed(self) -> bool {
        self == DelegatingImplOption::Implement
    }

    /// Whether the owned type gets an implementation.
    pub fn on_owned(self) -> (r: bool)
        ensures
            r == self.spec_on_owned(),
    {
        match self {
            DelegatingImplOption::Implement | DelegatingImplOption::OwnedOnly => true,
            DelegatingImplOption::Omit => false,
        }
    }

    /// Whether the borrowed type gets an implementation.
    pub fn on_borrowed(self) -> (r: bool)
        ensures
            r == self.spec_on_borrowed(),
    {
        match self {
            DelegatingImplOption::Implement => true,
            DelegatingImplOption::OwnedOnly | DelegatingImplOption::Omit => false,
        }
    }
}

impl From<ImplOption> for DelegatingImplOption {
    fn from(opt: ImplOption) -> (r: Self)
        ensures
            r == (match opt {
                ImplOption::Implement => DelegatingImplOption::Implement,
                ImplOption::Omit => DelegatingImplOption::Omit,
            }),
    {
        match opt {
            ImplOption::Implement => DelegatingImplOption::Implement,
            ImplOption::Omit => DelegatingImplOption::Omit,
        }
    }
}

impl vstd::std_specs::convert::FromSpecImpl<ImplOption> for DelegatingImplOption {
    open spec fn obeys_from_spec() -> bool {
        true
    }

    open spec fn from_spec(opt: ImplOption) -> Self {
        match opt {
            ImplOption::Implement => DelegatingImplOption::Implement,
            ImplOption::Omit => DelegatingImplOption::Omit,
        }
    }
}

impl AutoImplOption {
    /// The choice spelled `s`.
    pub open spec fn spec_parse(s: Seq<char>) -> Result<AutoImplOption, InvalidChoice> {
        if s == "auto"@ {
            Ok(AutoImplOption::Auto)
        } else if s == "owned"@ {
            Ok(AutoImplOption::OwnedOnly)
        } else if s == "none"@ {
            Ok(AutoImplOption::Disabled)
        } else {
            Err(InvalidChoice::AutoOwnedOrNone)
        }
    }

    /// Parses `auto`, `owned` or `none`.
    pub fn from_str(s: &str) -> (r: Result<AutoImplOption, InvalidChoice>)
        ensures
            r == Self::spec_parse(s@),
    {
        if str_eq(s, "auto") {
            Ok(AutoImplOption::Auto)
        } else if str_eq(s, "owned") {
            Ok(AutoImplOption::OwnedOnly)
        } else if str_eq(s, "none") {
            Ok(AutoImplOption::Disabled)
        } else {
            Err(InvalidChoice::AutoOwnedOrNone)
        }
    }

    /// The same policy in the current form.
    pub fn to_delegating(self) -> (r: DelegatingImplOption)
        ensures
            r == (match self {
                AutoImplOption::Auto => DelegatingImplOption::Implement,
                AutoImplOption::OwnedOnly => DelegatingImplOption::OwnedOnly,
                AutoImplOption::Disabled => DelegatingImplOption::Omit,
            }),
    {
        match self {
            AutoImplOption::Auto => DelegatingImplOption::Implement,
            AutoImplOption::OwnedOnly => DelegatingImplOption::OwnedOnly,
            AutoImplOption::Disabled => DelegatingImplOption::Omit,
        }
    }
}

impl Default for AutoImplOption {
    fn default() -> (r: Self)
        ensures
            r == AutoImplOption::Auto,
    {
        AutoImplOption::Auto
    }
}

/// The Clone policy; it applies to the owned type only.
#[derive(Clone, Copy, Debug, PartialEq, Eq, Structural)]
pub struct ImplClone(pub ImplOption);

/// The Display policy.
#[derive(Clone, Copy, Debug, PartialEq, Eq, Structural)]
pub struct ImplDisplay(pub DelegatingImplOption);

/// The Debug policy.
#[derive(Clone, Copy, Debug, PartialEq, Eq, Structural)]
pub struct ImplDebug(pub DelegatingImplOption);

/// The Ord and PartialOrd policy.
#[derive(Clone, Copy, Debug, PartialEq, Eq, Structural)]
pub struct ImplOrd(pub DelegatingImplOption);

/// The Serialize and Deserialize policy.
#[derive(Clone, Copy, Debug, PartialEq, Eq, Structural)]
pub struct ImplSerde(pub ImplOption);

impl Default for ImplClone {
    fn default() -> (r: Self)
        ensures
            r == ImplClone(ImplOption::Implement),
    {
        ImplClone(ImplOption::Implement)
    }
}

impl Default for ImplDisplay {
    fn default() -> (r: Self)
        ensures
            r == ImplDisplay(DelegatingImplOption::Implement),
    {
        ImplDisplay(DelegatingImplOption::Implement)
    }
}

impl Default for ImplDebug {
    fn default() -> (r: Self)
        ensures
            r == ImplDebug(DelegatingImplOption::Implement),
    {
        ImplDebug(DelegatingImplOption::Implement)
    }
}

impl Default for ImplOrd {
    fn default() -> (r: Self)
        ensures
            r == ImplOrd(DelegatingImplOption::Implement),
    {
        ImplOrd(DelegatingImplOption::Implement)
    }
}

impl Default for ImplSerde {
    fn default() -> (r: Self)
        ensures
            r == ImplSerde(ImplOption::Omit),
    {
        ImplSerde(ImplOption::Omit)
    }
}

/// The policies of the five tunable traits.
#[derive(Clone, Copy, Debug, PartialEq, Eq, Structural)]
pub struct Impls {
    pub clone: ImplClone,
    pub debug: ImplDebug,
    pub display: ImplDisplay,
    pub ord: ImplOrd,
    pub serde: ImplSerde,
}

impl Impls {
    /// The defaults: Clone, Debug, Display and Ord implemented, Serde omitted.
    pub open spec fn spec_default() -> Impls {
        Impls {
            clone: ImplClone(ImplOption::Implement),
            debug: ImplDebug(DelegatingImplOption::Implement),
            display: ImplDisplay(DelegatingImplOption::Implement),
            ord: ImplOrd(DelegatingImplOption::Implement),
            serde: ImplSerde(ImplOption::Omit),
        }
    }
}

impl Default for Impls {
    fn default() -> (r: Self)
        ensures
            r == Impls::spec_default(),
    {
        Impls {
            clone: ImplClone::default(),
            debug: ImplDebug::default(),
            display: ImplDisplay::default(),
            ord: ImplOrd::default(),
            serde: ImplSerde::default(),
        }
    }
}

} // verus!
