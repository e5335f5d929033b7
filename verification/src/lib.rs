//! A function-level lowering engine that turns annotated source functions
//! into JavaScript text: a structural translation of expressions, statements,
//! closures and pattern matches, a catalog-driven identifier policy for host
//! API names, a model of the runtime shims the lowered code calls into, and
//! an ordered registry that assembles the final script.

pub mod ast;
pub mod demo;
pub mod emit;
pub mod eval;
pub mod jsast;
pub mod lower;
pub mod policy;
pub mod registry;
pub mod render;
pub mod shim;
pub mod text;

use vstd::prelude::*;

verus! {

} // verus!
