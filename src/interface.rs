//! Source positions and interned names.

use vstd::prelude::*;

verus! {

/// A byte range `lo..hi` in a source file.
#[derive(Clone, Copy, Debug, PartialEq, Eq, Structural)]
pub struct Span {
    pub lo: u32,
    pub hi: u32,
}

/// An interned string: the index of its entry in the interner.
#[derive(Clone, Copy, Debug, PartialEq, Eq, Structural)]
pub struct Symbol {
    pub index: u32,
}

/// An identifier: an interned name and the place it was written.
#[derive(Clone, Copy, Debug, PartialEq, Eq, Structural)]
pub struct Ident {
    pub name: Symbol,
    pub span: Span,
}

} // verus!
