//! Whether option values that name types are written as types.
use vstd::prelude::*;
use crate::params::{Arg, Lit};

verus! {

/// Relies on `syn::parse_str::<syn::Type>`: whether the text parses as a Rust
/// type. Inside a procedural macro syn lexes with the compiler and elsewhere
/// with its own lexer, which can disagree, so nothing is promised of the
/// answer.
#[verifier::external_body]
fn parses_as_type(s: &str) -> bool {
    syn::parse_str::<syn::Type>(s).is_ok()
}

/// For each argument, whether its string value parses as a type; `true` for
/// an argument without a string value. Only the values of type-naming keys
/// are looked at by the parsers.
pub fn type_checks(args: &Vec<Arg>) -> (r: Vec<bool>)
    ensures
        r@.len() == args@.len(),
{
    let mut out: Vec<bool> = Vec::new();
    let mut i: usize = 0;
    while i < args.len()
        invariant
            i <= args@.len(),
            out@.len() == i,
        decreases args@.len() - i,
    {
        let ok = match &args[i] {
            Arg::NameValue(_, Lit::Str(t)) => parses_as_type(t.as_str()),
            _ => true,
        };
        out.push(ok);
        i = i + 1;
    }
    out
}

} // verus!
