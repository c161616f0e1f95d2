//! Strongly-typed string wrappers: owned/borrowed pairs whose content is
//! checked, or normalized, at every construction boundary; and the model of
//! the generator that derives such pairs from a short declaration.
//!
//! The wrappers:
//! - [`rules`]: the contracts of validators and normalizers;
//! - [`braid`]: the owned, borrowed and boxed forms, generic over the check
//!   mode, and their shared operations;
//! - [`unchecked`], [`checked`], [`normalizing`]: the constructors of each
//!   check mode;
//! - [`scope`], [`lower`], [`samples`]: braids of each mode, with their rules;
//! - [`laws`]: properties that relate the constructors and views.
//!
//! The generator:
//! - [`symbol`]: the option keys;
//! - [`syntax`]: whether an option value names a type;
//! - [`check_mode`]: validator/normalizer resolution;
//! - [`impls`]: the per-trait implementation policies;
//! - [`params`]: parsing a declaration's arguments;
//! - [`shape`]: the wrapped field and the borrowed type's name;
//! - [`plan`]: which items are emitted, per mode and policy;
//! - [`codegen`]: resolving a declaration and planning its emission.
use vstd::prelude::*;

pub mod text;
pub mod rules;
pub mod braid;
pub mod unchecked;
pub mod checked;
pub mod normalizing;
pub mod scope;
pub mod lower;
pub mod samples;
pub mod laws;
pub mod symbol;
pub mod syntax;
pub mod check_mode;
pub mod impls;
pub mod params;
pub mod shape;
pub mod plan;
pub mod codegen;

verus! {

} // verus!
