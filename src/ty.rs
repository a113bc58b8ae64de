//! Type references.

use vstd::prelude::*;
use crate::interface::{Span, Symbol};

verus! {

/// A type as written in the source: `uint256`, `MyContract`.
#[derive(Clone, Copy, Debug, PartialEq, Eq, Structural)]
pub struct Ty {
    pub span: Span,
    /// The type's name, interned.
    pub name: Symbol,
}

} // verus!
