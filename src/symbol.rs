//! The option keys that a braid declaration understands.
use vstd::prelude::*;
use crate::text::str_eq;

verus! {

/// An option key of a braid declaration.
#[derive(Clone, Copy, Debug, PartialEq, Eq, Structural)]
pub enum Symbol {
    Ref,
    RefDoc,
    RefAttr,
    OwnedAttr,
    Validator,
    Normalizer,
    Clone,
    Debug,
    Display,
    Ord,
    Serde,
    NoStd,
    NoExpose,
}

impl Symbol {
    /// The key as it is written in a declaration.
    pub open spec fn spec_name(self) -> Seq<char> {
        match self {
            Symbol::Ref => "ref"@,
            Symbol::RefDoc => "ref_doc"@,
            Symbol::RefAttr => "ref_attr"@,
            Symbol::OwnedAttr => "owned_attr"@,
            Symbol::Validator => "validator"@,
            Symbol::Normalizer => "normalizer"@,
            Symbol::Clone => "clone"@,
            Symbol::Debug => "debug"@,
            Symbol::Display => "display"@,
            Symbol::Ord => "ord"@,
            Symbol::Serde => "serde"@,
            Symbol::NoStd => "no_std"@,
            Symbol::NoExpose => "no_expose"@,
        }
    }

    /// The key spelled `key`, if there is one.
    pub open spec fn spec_lookup(key: Seq<char>) -> Option<Symbol> {
        if exists|s: Symbol| #[trigger] s.spec_name() == key {
            Some(choose|s: Symbol| #[trigger] s.spec_name() == key)
        } else {
            None
        }
    }

    /// No two keys are spelled alike.
    pub proof fn lemma_names_distinct(a: Symbol, b: Symbol)
        requires
            a.spec_name() == b.spec_name(),
        ensures
            a == b,
    {
        reveal_strlit("ref");
        reveal_strlit("ref_doc");
        reveal_strlit("ref_attr");
        reveal_strlit("owned_attr");
        reveal_strlit("validator");
        reveal_strlit("normalizer");
        reveal_strlit("clone");
        reveal_strlit("debug");
        reveal_strlit("display");
        reveal_strlit("ord");
        reveal_strlit("serde");
        reveal_strlit("no_std");
        reveal_strlit("no_expose");
        if a != b {
            let x = a.spec_name();
            let y = b.spec_name();
            assert(x.len() != y.len() || x[0] != y[0] || x[1] != y[1] || x[2] != y[2] || x[3]
                != y[3] || x[4] != y[4] || x[5] != y[5] || x[6] != y[6] || x[7] != y[7]);
        }
    }

    /// The key as it is written in a declaration.
    pub fn name(&self) -> (r: &'static str)
        ensures
            r@ == self.spec_name(),
    {
        match self {
            Symbol::Ref => "ref",
            Symbol::RefDoc => "ref_doc",
            Symbol::RefAttr => "ref_attr",
            Symbol::OwnedAttr => "owned_attr",
            Symbol::Validator => "validator",
            Symbol::Normalizer => "normalizer",
            Symbol::Clone => "clone",
            Symbol::Debug => "debug",
            Symbol::Display => "display",
            Symbol::Ord => "ord",
            Symbol::Serde => "serde",
            Symbol::NoStd => "no_std",
            Symbol::NoExpose => "no_expose",
        }
    }

    /// The key spelled `key`, if there is one.
    pub fn lookup(key: &str) -> (r: Option<Symbol>)
        ensures
            r == Self::spec_lookup(key@),
    {
        let all = [
            Symbol::Ref,
            Symbol::RefDoc,
            Symbol::RefAttr,
            Symbol::OwnedAttr,
            Symbol::Validator,
            Symbol::Normalizer,
            Symbol::Clone,
            Symbol::Debug,
            Symbol::Display,
            Symbol::Ord,
            Symbol::Serde,
            Symbol::NoStd,
            Symbol::NoExpose,
        ];
        let mut i: usize = 0;
        while i < 13
            invariant
                i <= 13,
                all@ == seq![
                    Symbol::Ref,
                    Symbol::RefDoc,
                    Symbol::RefAttr,
                    Symbol::OwnedAttr,
                    Symbol::Validator,
                    Symbol::Normalizer,
                    Symbol::Clone,
                    Symbol::Debug,
                    Symbol::Display,
                    Symbol::Ord,
                    Symbol::Serde,
                    Symbol::NoStd,
                    Symbol::NoExpose,
                ],
                forall|j: int| 0 <= j < i ==> (#[trigger] all@[j]).spec_name() != key@,
            decreases 13 - i,
        {
            let s = all[i];
            if str_eq(key, s.name()) {
                proof {
                    let c = choose|t: Symbol| #[trigger] t.spec_name() == key@;
                    Self::lemma_names_distinct(c, s);
                }
                return Some(s);
            }
            i = i + 1;
        }
        assert forall|s: Symbol| #[trigger] s.spec_name() != key@ by {
            match s {
                Symbol::Ref => assert(all@[0] == s),
                Symbol::RefDoc => assert(all@[1] == s),
                Symbol::RefAttr => assert(all@[2] == s),
                Symbol::OwnedAttr => assert(all@[3] == s),
                Symbol::Validator => assert(all@[4] == s),
                Symbol::Normalizer => assert(all@[5] == s),
                Symbol::Clone => assert(all@[6] == s),
                Symbol::Debug => assert(all@[7] == s),
                Symbol::Display => assert(all@[8] == s),
                Symbol::Ord => assert(all@[9] == s),
                Symbol::Serde => assert(all@[10] == s),
                Symbol::NoStd => assert(all@[11] == s),
                Symbol::NoExpose => assert(all@[12] == s),
            }
        }
        None
    }
}

} // verus!
