//! A-normal form: every computation is bound to a name before it is used,
//! and operands are names or literal values.

use crate::value::Value;
use vstd::prelude::*;

pub mod builder;

verus! {

/// A top-level item of a program unit.
#[derive(Clone, Copy)]
pub enum Item<'a> {
    /// A named routine. Its parameters are bound on entry; no binding of
    /// the body produces them.
    Routine { name: Global<'a>, parameters: &'a [Local], body: Anf<'a> },
}

/// A sequence of bindings followed by a result.
#[derive(Clone, Copy)]
pub struct Anf<'a> {
    pub bindings: &'a [Binding<'a>],
    pub result: Simple<'a>,
}

/// The name that an expression's result is bound to.
#[derive(Clone, Copy)]
pub struct Binding<'a> {
    pub result: Local,
    pub expression: Complex<'a>,
}

/// An expression that computes: each one produces one new name.
#[derive(Clone, Copy)]
pub enum Complex<'a> {
    /// Call a named routine with the given arguments.
    CallRoutine { routine: Global<'a>, arguments: &'a [Simple<'a>] },
}

/// An operand, which costs nothing to evaluate.
#[derive(Clone, Copy)]
pub enum Simple<'a> {
    /// The result of an earlier binding, or a parameter.
    Local(Local),
    /// A literal value.
    Quote(&'a Value<'a>),
}

/// The name of a top-level routine: an opaque string of bytes.
#[derive(Clone, Copy, Debug, Eq, Hash, Ord, PartialEq, PartialOrd)]
pub struct Global<'a> {
    pub name: &'a [u8],
}

/// The name of a binding's result within one body.
#[derive(Clone, Copy, Debug, Eq, Hash, Ord, PartialEq, PartialOrd, Structural)]
pub struct Local {
    pub id: u64,
}

} // verus!
