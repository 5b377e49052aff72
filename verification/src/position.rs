//! Source positions.

use vstd::prelude::*;

verus! {

/// Where in the source text a value was read: a line and a column.
///
/// A position is carried along for diagnostics only. It takes no part in
/// the identity of the value that holds it.
#[derive(Clone, Copy, Debug, PartialEq, Eq, PartialOrd, Ord, Structural)]
pub struct Position {
    pub line: u32,
    pub column: u32,
}

} // verus!
