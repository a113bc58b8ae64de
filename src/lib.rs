//! The expression layer of a Solidity-style abstract syntax tree: expression
//! nodes, binary and unary operator tags with their spelling and
//! classification, call arguments and indexing forms.

pub mod interface;
pub mod lit;
pub mod ty;
pub mod expr;
pub mod structure;
