//! Literals and their unit suffixes.

use vstd::prelude::*;
use crate::interface::{Span, Symbol};

verus! {

/// A literal as written in the source: `42`, `"abc"`, `hex"1234"`, `true`.
#[derive(Clone, Copy, Debug, PartialEq, Eq, Structural)]
pub struct Lit {
    pub span: Span,
    /// The literal's source text, interned.
    pub symbol: Symbol,
}

/// A unit suffix of a number literal: `5 ether`, `2 days`.
#[derive(Clone, Copy, Debug, PartialEq, Eq, Structural)]
pub enum SubDenomination {
    Wei,
    Gwei,
    Ether,
    Seconds,
    Minutes,
    Hours,
    Days,
    Weeks,
    Years,
}

} // verus!
