//! Expression nodes and the operator, argument and index forms they are built from.

use vstd::prelude::*;
use crate::interface::{Ident, Span};
use crate::lit::{Lit, SubDenomination};
use crate::ty::Ty;

verus! {

/// A list of named arguments: `{a: "1", b: 2}`.
pub type NamedArgList = Vec<NamedArg>;

/// An expression.
#[derive(Debug, PartialEq, Eq)]
pub struct Expr {
    pub span: Span,
    pub kind: ExprKind,
}

impl Expr {
    /// Creates a new expression from an identifier.
    pub fn from_ident(ident: Ident) -> (r: Self)
        ensures
            r.span == ident.span,
            r.kind == ExprKind::Ident(ident),
    {
        Expr { span: ident.span, kind: ExprKind::Ident(ident) }
    }

    /// Creates a new expression from a type.
    pub fn from_ty(ty: Ty) -> (r: Self)
        ensures
            r.span == ty.span,
            r.kind == ExprKind::Type(ty),
    {
        Expr { span: ty.span, kind: ExprKind::Type(ty) }
    }
}

/// A kind of expression.
#[derive(Debug, PartialEq, Eq)]
pub enum ExprKind {
    /// An array literal expression: `[a, b, c, d]`.
    Array(Vec<Box<Expr>>),

    /// An assignment: `a = b`, `a += b`.
    Assign(Box<Expr>, Option<BinOp>, Box<Expr>),

    /// A binary operation: `a + b`, `a >> b`.
    Binary(Box<Expr>, BinOp, Box<Expr>),

    /// A function call expression: `foo(42)` or `foo({ bar: 42 })`.
    Call(Box<Expr>, CallArgs),

    /// Function call options: `foo.bar{ value: 1, gas: 2 }`.
    CallOptions(Box<Expr>, NamedArgList),

    /// A unary `delete` expression: `delete vector`.
    Delete(Box<Expr>),

    /// An identifier: `foo`.
    Ident(Ident),

    /// A square bracketed indexing expression: `vector[index]`, `slice[l:r]`.
    Index(Box<Expr>, IndexKind),

    /// A literal: `hex"1234"`, `5.6 ether`.
    Lit(Lit, Option<SubDenomination>),

    /// Access of a named member: `obj.k`.
    Member(Box<Expr>, Ident),

    /// A `new` expression: `new Contract`.
    New(Ty),

    /// A `payable` expression: `payable(address(0x...))`.
    Payable(CallArgs),

    /// A ternary (AKA conditional) expression: `foo ? bar : baz`.
    Ternary(Box<Expr>, Box<Expr>, Box<Expr>),

    /// A tuple expression: `(a,,, b, c, d)`; `None` marks an omitted element.
    Tuple(Vec<Option<Box<Expr>>>),

    /// A `type()` expression: `type(uint256)`
    TypeCall(Ty),

    /// An elementary type name: `uint256`.
    Type(Ty),

    /// A unary operation: `!x`, `-x`, `x++`.
    Unary(UnOp, Box<Expr>),
}

/// A binary operation: `a + b`, `a += b`.
#[derive(Clone, Copy, Debug, PartialEq, Eq, Structural)]
pub struct BinOp {
    pub span: Span,
    pub kind: BinOpKind,
}

impl BinOp {
    /// The operator's token, as the operation is displayed.
    pub fn to_str(&self) -> (r: &'static str)
        ensures
            r@ == self.kind.spelling(),
    {
        self.kind.to_str()
    }
}

/// A kind of binary operation.
#[derive(Clone, Copy, Debug, PartialEq, Eq, Hash, Structural)]
pub enum BinOpKind {
    /// `<`
    Lt,
    /// `<=`
    Le,
    /// `>`
    Gt,
    /// `>=`
    Ge,
    /// `==`
    Eq,
    /// `!=`
    Ne,
    /// `||`
    Or,
    /// `&&`
    And,

    /// `>>`
    Shr,
    /// `<<`
    Shl,
    /// `>>>`
    Sar,
    /// `&`
    BitAnd,
    /// `|`
    BitOr,
    /// `^`
    BitXor,

    /// `+`
    Add,
    /// `-`
    Sub,
    /// `**`
    Pow,
    /// `*`
    Mul,
    /// `/`
    Div,
    /// `%`
    Rem,
}

impl BinOpKind {
    /// The operator's token in source text.
    pub open spec fn spelling(self) -> Seq<char> {
        match self {
            BinOpKind::Lt => "<"@,
            BinOpKind::Le => "<="@,
            BinOpKind::Gt => ">"@,
            BinOpKind::Ge => ">="@,
            BinOpKind::Eq => "=="@,
            BinOpKind::Ne => "!="@,
            BinOpKind::Or => "||"@,
            BinOpKind::And => "&&"@,
            BinOpKind::Sar => ">>>"@,
            BinOpKind::Shr => ">>"@,
            BinOpKind::Shl => "<<"@,
            BinOpKind::BitAnd => "&"@,
            BinOpKind::BitOr => "|"@,
            BinOpKind::BitXor => "^"@,
            BinOpKind::Add => "+"@,
            BinOpKind::Sub => "-"@,
            BinOpKind::Pow => "**"@,
            BinOpKind::Mul => "*"@,
            BinOpKind::Div => "/"@,
            BinOpKind::Rem => "%"@,
        }
    }

    /// Whether the operator may form a compound assignment (`a op= b`).
    pub open spec fn spec_assignable(self) -> bool {
        match self {
            BinOpKind::BitOr
            | BinOpKind::BitXor
            | BinOpKind::BitAnd
            | BinOpKind::Shl
            | BinOpKind::Shr
            | BinOpKind::Sar
            | BinOpKind::Add
            | BinOpKind::Sub
            | BinOpKind::Mul
            | BinOpKind::Div
            | BinOpKind::Rem => true,
            BinOpKind::Lt
            | BinOpKind::Le
            | BinOpKind::Gt
            | BinOpKind::Ge
            | BinOpKind::Eq
            | BinOpKind::Ne
            | BinOpKind::Or
            | BinOpKind::And
            | BinOpKind::Pow => false,
        }
    }

    /// Returns the string representation of the operator.
    pub fn to_str(self) -> (r: &'static str)
        ensures
            r@ == self.spelling(),
    {
        match self {
            BinOpKind::Lt => "<",
            BinOpKind::Le => "<=",
            BinOpKind::Gt => ">",
            BinOpKind::Ge => ">=",
            BinOpKind::Eq => "==",
            BinOpKind::Ne => "!=",
            BinOpKind::Or => "||",
            BinOpKind::And => "&&",
            BinOpKind::Sar => ">>>",
            BinOpKind::Shr => ">>",
            BinOpKind::Shl => "<<",
            BinOpKind::BitAnd => "&",
            BinOpKind::BitOr => "|",
            BinOpKind::BitXor => "^",
            BinOpKind::Add => "+",
            BinOpKind::Sub => "-",
            BinOpKind::Pow => "**",
            BinOpKind::Mul => "*",
            BinOpKind::Div => "/",
            BinOpKind::Rem => "%",
        }
    }

    /// Returns `true` if the operator is able to be used in an assignment.
    pub fn assignable(self) -> (r: bool)
        ensures
            r == self.spec_assignable(),
    {
        match self {
            BinOpKind::BitOr
            | BinOpKind::BitXor
            | BinOpKind::BitAnd
            | BinOpKind::Shl
            | BinOpKind::Shr
            | BinOpKind::Sar
            | BinOpKind::Add
            | BinOpKind::Sub
            | BinOpKind::Mul
            | BinOpKind::Div
            | BinOpKind::Rem => true,
            BinOpKind::Lt
            | BinOpKind::Le
            | BinOpKind::Gt
            | BinOpKind::Ge
            | BinOpKind::Eq
            | BinOpKind::Ne
            | BinOpKind::Or
            | BinOpKind::And
            | BinOpKind::Pow => false,
        }
    }
}

/// A unary operation: `!x`, `-x`, `x++`.
#[derive(Clone, Copy, Debug, PartialEq, Eq, Structural)]
pub struct UnOp {
    pub span: Span,
    pub kind: UnOpKind,
}

impl UnOp {
    /// The operator's token, as the operation is displayed.
    pub fn to_str(&self) -> (r: &'static str)
        ensures
            r@ == self.kind.spelling(),
    {
        self.kind.to_str()
    }
}

/// A kind of unary operation.
#[derive(Clone, Copy, Debug, PartialEq, Eq, Hash, Structural)]
pub enum UnOpKind {
    /// `++x`
    PreInc,
    /// `--x`
    PreDec,
    /// `!`
    Not,
    /// `-`
    Neg,
    /// `~`
    BitNot,

    /// `x++`
    PostInc,
    /// `x--`
    PostDec,
}

impl UnOpKind {
    /// The operator's token in source text; increment and decrement are
    /// spelled alike before and after the operand.
    pub open spec fn spelling(self) -> Seq<char> {
        match self {
            UnOpKind::PreInc => "++"@,
            UnOpKind::PreDec => "--"@,
            UnOpKind::Not => "!"@,
            UnOpKind::Neg => "-"@,
            UnOpKind::BitNot => "~"@,
            UnOpKind::PostInc => "++"@,
            UnOpKind::PostDec => "--"@,
        }
    }

    /// Whether the operator is written before its operand.
    pub open spec fn spec_is_prefix(self) -> bool {
        match self {
            UnOpKind::PreInc
            | UnOpKind::PreDec
            | UnOpKind::Not
            | UnOpKind::Neg
            | UnOpKind::BitNot => true,
            UnOpKind::PostInc | UnOpKind::PostDec => false,
        }
    }

    /// Whether the operator is written after its operand.
    pub open spec fn spec_is_postfix(self) -> bool {
        self is PostInc || self is PostDec
    }

    /// Returns the string representation of the operator.
    pub fn to_str(self) -> (r: &'static str)
        ensures
            r@ == self.spelling(),
    {
        match self {
            UnOpKind::PreInc => "++",
            UnOpKind::PreDec => "--",
            UnOpKind::Not => "!",
            UnOpKind::Neg => "-",
            UnOpKind::BitNot => "~",
            UnOpKind::PostInc => "++",
            UnOpKind::PostDec => "--",
        }
    }

    /// Returns `true` if the operator is a prefix operator.
    pub fn is_prefix(self) -> (r: bool)
        ensures
            r == self.spec_is_prefix(),
    {
        match self {
            UnOpKind::PreInc
            | UnOpKind::PreDec
            | UnOpKind::Not
            | UnOpKind::Neg
            | UnOpKind::BitNot => true,
            UnOpKind::PostInc | UnOpKind::PostDec => false,
        }
    }

    /// Returns `true` if the operator is a postfix operator: exactly when it
    /// is not a prefix one.
    pub fn is_postfix(self) -> (r: bool)
        ensures
            r == self.spec_is_postfix(),
            r == !self.spec_is_prefix(),
    {
        !self.is_prefix()
    }
}

/// A list of function call arguments: either all positional or all named.
#[derive(Debug, PartialEq, Eq)]
pub enum CallArgs {
    /// A list of unnamed arguments: `(1, 2, 3)`.
    Unnamed(Vec<Box<Expr>>),

    /// A list of named arguments: `({x: 1, y: 2, z: 3})`.
    Named(NamedArgList),
}

impl CallArgs {
    /// The list with no arguments, written in the unnamed form: `()`.
    pub open spec fn is_empty_unnamed(&self) -> bool {
        self matches CallArgs::Unnamed(args) && args@.len() == 0
    }

    /// Creates a new empty list of unnamed arguments.
    pub fn empty() -> (r: Self)
        ensures
            r.is_empty_unnamed(),
    {
        CallArgs::Unnamed(Vec::new())
    }
}

impl Default for CallArgs {
    fn default() -> (r: Self)
        ensures
            r.is_empty_unnamed(),
    {
        CallArgs::Unnamed(Vec::new())
    }
}

/// A named argument: `name: value`.
#[derive(Debug, PartialEq, Eq)]
pub struct NamedArg {
    pub name: Ident,
    pub value: Box<Expr>,
}

/// A kind of square bracketed indexing expression: `vector[index]`, `slice[l:r]`.
#[derive(Debug, PartialEq, Eq)]
pub enum IndexKind {
    /// A single index: `vector[index]`.
    Index(Option<Box<Expr>>),

    /// A slice: `slice[l:r]`; either bound may be left out.
    Range(Option<Box<Expr>>, Option<Box<Expr>>),
}

/// Every binary operator has a non-empty spelling, and no two operators share
/// one: reading the token back gives the operator it came from.
pub proof fn lemma_bin_op_spelling_unique(a: BinOpKind, b: BinOpKind)
    ensures
        a.spelling().len() > 0,
        a.spelling() == b.spelling() ==> a == b,
{
    reveal_strlit("<");
    reveal_strlit("<=");
    reveal_strlit(">");
    reveal_strlit(">=");
    reveal_strlit("==");
    reveal_strlit("!=");
    reveal_strlit("||");
    reveal_strlit("&&");
    reveal_strlit(">>>");
    reveal_strlit(">>");
    reveal_strlit("<<");
    reveal_strlit("&");
    reveal_strlit("|");
    reveal_strlit("^");
    reveal_strlit("+");
    reveal_strlit("-");
    reveal_strlit("**");
    reveal_strlit("*");
    reveal_strlit("/");
    reveal_strlit("%");
    if a.spelling() == b.spelling() {
        assert(a.spelling()[0] == b.spelling()[0]);
        assert(a.spelling().len() == b.spelling().len());
        if a.spelling().len() > 1 {
            assert(a.spelling()[1] == b.spelling()[1]);
        }
    }
}

/// Every unary operator is written either before or after its operand,
/// never both and never neither.
pub proof fn lemma_un_op_position_partition(k: UnOpKind)
    ensures
        k.spec_is_prefix() != k.spec_is_postfix(),
{
}

/// The operator queries depend on the operator's tag alone: asking again on
/// the same tag gives the same answer.
pub proof fn lemma_op_queries_depend_on_tag(a: BinOpKind, b: BinOpKind, u: UnOpKind, v: UnOpKind)
    requires
        a == b,
        u == v,
    ensures
        a.spelling() == b.spelling(),
        a.spec_assignable() == b.spec_assignable(),
        u.spelling() == v.spelling(),
        u.spec_is_prefix() == v.spec_is_prefix(),
{
}

} // verus!
