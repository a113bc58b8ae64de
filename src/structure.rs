//! Structural likeness of expression trees, and the deep copies that keep it.

use vstd::prelude::*;
use crate::expr::{CallArgs, Expr, ExprKind, IndexKind, NamedArg, NamedArgList};

verus! {

/// Two expressions are alike: the same spans, variants, operators, names,
/// literals and types, all the way down.
pub open spec fn same_expr(a: Expr, b: Expr) -> bool
    decreases a,
{
    a.span == b.span && same_kind(a.kind, b.kind)
}

/// Two optional expressions are alike: both absent, or both present and alike.
pub open spec fn same_opt(a: Option<Box<Expr>>, b: Option<Box<Expr>>) -> bool
    decreases a,
{
    match a {
        None => b is None,
        Some(e) => b matches Some(f) && same_expr(*e, *f),
    }
}

/// Two named arguments are alike.
pub open spec fn same_named(a: NamedArg, b: NamedArg) -> bool
    decreases a,
{
    a.name == b.name && same_expr(*a.value, *b.value)
}

/// Two argument lists are alike: the same form, the same length, and alike
/// at each position.
pub open spec fn same_args(a: CallArgs, b: CallArgs) -> bool
    decreases a,
{
    match a {
        CallArgs::Unnamed(x) => b matches CallArgs::Unnamed(y) && x@.len() == y@.len()
            && forall|i: int| 0 <= i < x@.len() ==> #[trigger] same_expr(*x@[i], *y@[i]),
        CallArgs::Named(x) => b matches CallArgs::Named(y) && x@.len() == y@.len()
            && forall|i: int| 0 <= i < x@.len() ==> #[trigger] same_named(x@[i], y@[i]),
    }
}

/// Two index forms are alike.
pub open spec fn same_index(a: IndexKind, b: IndexKind) -> bool
    decreases a,
{
    match a {
        IndexKind::Index(i) => b matches IndexKind::Index(j) && same_opt(i, j),
        IndexKind::Range(l, r) => b matches IndexKind::Range(m, s) && same_opt(l, m)
            && same_opt(r, s),
    }
}

/// Two expression kinds are alike.
pub open spec fn same_kind(a: ExprKind, b: ExprKind) -> bool
    decreases a,
{
    match a {
        ExprKind::Array(x) => b matches ExprKind::Array(y) && x@.len() == y@.len()
            && forall|i: int| 0 <= i < x@.len() ==> #[trigger] same_expr(*x@[i], *y@[i]),
        ExprKind::Assign(l, op, r) => b matches ExprKind::Assign(m, op2, s) && op == op2
            && same_expr(*l, *m) && same_expr(*r, *s),
        ExprKind::Binary(l, op, r) => b matches ExprKind::Binary(m, op2, s) && op == op2
            && same_expr(*l, *m) && same_expr(*r, *s),
        ExprKind::Call(f, args) => b matches ExprKind::Call(g, args2) && same_expr(*f, *g)
            && same_args(args, args2),
        ExprKind::CallOptions(f, x) => b matches ExprKind::CallOptions(g, y) && same_expr(*f, *g)
            && x@.len() == y@.len()
            && forall|i: int| 0 <= i < x@.len() ==> #[trigger] same_named(x@[i], y@[i]),
        ExprKind::Delete(e) => b matches ExprKind::Delete(f) && same_expr(*e, *f),
        ExprKind::Ident(id) => b == ExprKind::Ident(id),
        ExprKind::Index(e, k) => b matches ExprKind::Index(f, k2) && same_expr(*e, *f)
            && same_index(k, k2),
        ExprKind::Lit(lit, d) => b == ExprKind::Lit(lit, d),
        ExprKind::Member(e, id) => b matches ExprKind::Member(f, id2) && id == id2
            && same_expr(*e, *f),
        ExprKind::New(ty) => b == ExprKind::New(ty),
        ExprKind::Payable(args) => b matches ExprKind::Payable(args2) && same_args(args, args2),
        ExprKind::Ternary(c, t, e) => b matches ExprKind::Ternary(c2, t2, e2) && same_expr(*c, *c2)
            && same_expr(*t, *t2) && same_expr(*e, *e2),
        ExprKind::Tuple(x) => b matches ExprKind::Tuple(y) && x@.len() == y@.len()
            && forall|i: int| 0 <= i < x@.len() ==> #[trigger] same_opt(x@[i], y@[i]),
        ExprKind::TypeCall(ty) => b == ExprKind::TypeCall(ty),
        ExprKind::Type(ty) => b == ExprKind::Type(ty),
        ExprKind::Unary(op, e) => b matches ExprKind::Unary(op2, f) && op == op2
            && same_expr(*e, *f),
    }
}

/// Two argument lists that are both the empty unnamed form, such as what
/// `CallArgs::empty` and `CallArgs::default` return, are structurally equal.
pub proof fn lemma_empty_call_args_agree(a: CallArgs, b: CallArgs)
    requires
        a.is_empty_unnamed(),
        b.is_empty_unnamed(),
    ensures
        same_args(a, b),
{
}

fn clone_expr(e: &Expr) -> (r: Expr)
    ensures
        same_expr(r, *e),
    decreases *e,
{
    Expr { span: e.span, kind: clone_kind(&e.kind) }
}

fn clone_opt(e: &Option<Box<Expr>>) -> (r: Option<Box<Expr>>)
    ensures
        same_opt(r, *e),
    decreases *e,
{
    match e {
        None => None,
        Some(b) => Some(Box::new(clone_expr(&**b))),
    }
}

fn clone_boxes(v: &Vec<Box<Expr>>) -> (r: Vec<Box<Expr>>)
    ensures
        r@.len() == v@.len(),
        forall|i: int| 0 <= i < v@.len() ==> same_expr(*#[trigger] r@[i], *v@[i]),
    decreases *v,
{
    let mut out: Vec<Box<Expr>> = Vec::new();
    let mut i: usize = 0;
    while i < v.len()
        invariant
            i <= v@.len(),
            out@.len() == i,
            forall|j: int| 0 <= j < i ==> same_expr(*#[trigger] out@[j], *v@[j]),
        decreases v@.len() - i,
    {
        proof {
            assert(decreases_to!(*v => v[i as int]));
        }
        out.push(Box::new(clone_expr(&*v[i])));
        i = i + 1;
    }
    out
}

fn clone_opts(v: &Vec<Option<Box<Expr>>>) -> (r: Vec<Option<Box<Expr>>>)
    ensures
        r@.len() == v@.len(),
        forall|i: int| 0 <= i < v@.len() ==> #[trigger] same_opt(r@[i], v@[i]),
    decreases *v,
{
    let mut out: Vec<Option<Box<Expr>>> = Vec::new();
    let mut i: usize = 0;
    while i < v.len()
        invariant
            i <= v@.len(),
            out@.len() == i,
            forall|j: int| 0 <= j < i ==> #[trigger] same_opt(out@[j], v@[j]),
        decreases v@.len() - i,
    {
        proof {
            assert(decreases_to!(*v => v[i as int]));
        }
        out.push(clone_opt(&v[i]));
        i = i + 1;
    }
    out
}

fn clone_named(a: &NamedArg) -> (r: NamedArg)
    ensures
        same_named(r, *a),
    decreases *a,
{
    NamedArg { name: a.name, value: Box::new(clone_expr(&*a.value)) }
}

fn clone_named_list(v: &NamedArgList) -> (r: NamedArgList)
    ensures
        r@.len() == v@.len(),
        forall|i: int| 0 <= i < v@.len() ==> #[trigger] same_named(r@[i], v@[i]),
    decreases *v,
{
    let mut out: NamedArgList = Vec::new();
    let mut i: usize = 0;
    while i < v.len()
        invariant
            i <= v@.len(),
            out@.len() == i,
            forall|j: int| 0 <= j < i ==> #[trigger] same_named(out@[j], v@[j]),
        decreases v@.len() - i,
    {
        proof {
            assert(decreases_to!(*v => v[i as int]));
        }
        out.push(clone_named(&v[i]));
        i = i + 1;
    }
    out
}

fn clone_args(a: &CallArgs) -> (r: CallArgs)
    ensures
        same_args(r, *a),
    decreases *a,
{
    match a {
        CallArgs::Unnamed(v) => {
            let r = clone_boxes(v);
            assert(forall|i: int| 0 <= i < r@.len() ==> same_expr(*r@[i], *v@[i]));
            CallArgs::Unnamed(r)
        },
        CallArgs::Named(v) => {
            let r = clone_named_list(v);
            assert(forall|i: int| 0 <= i < r@.len() ==> same_named(r@[i], v@[i]));
            CallArgs::Named(r)
        },
    }
}

fn clone_index(k: &IndexKind) -> (r: IndexKind)
    ensures
        same_index(r, *k),
    decreases *k,
{
    match k {
        IndexKind::Index(i) => IndexKind::Index(clone_opt(i)),
        IndexKind::Range(l, h) => IndexKind::Range(clone_opt(l), clone_opt(h)),
    }
}

fn clone_kind(k: &ExprKind) -> (r: ExprKind)
    ensures
        same_kind(r, *k),
    decreases *k,
{
    match k {
        ExprKind::Array(v) => {
            let r = clone_boxes(v);
            assert(forall|i: int| 0 <= i < r@.len() ==> same_expr(*r@[i], *v@[i]));
            ExprKind::Array(r)
        },
        ExprKind::Assign(l, op, r) => ExprKind::Assign(Box::new(clone_expr(&**l)), *op, Box::new(clone_expr(&**r))),
        ExprKind::Binary(l, op, r) => ExprKind::Binary(Box::new(clone_expr(&**l)), *op, Box::new(clone_expr(&**r))),
        ExprKind::Call(f, args) => ExprKind::Call(Box::new(clone_expr(&**f)), clone_args(args)),
        ExprKind::CallOptions(f, v) => {
            let r = clone_named_list(v);
            assert(forall|i: int| 0 <= i < r@.len() ==> same_named(r@[i], v@[i]));
            ExprKind::CallOptions(Box::new(clone_expr(&**f)), r)
        },
        ExprKind::Delete(e) => ExprKind::Delete(Box::new(clone_expr(&**e))),
        ExprKind::Ident(id) => ExprKind::Ident(*id),
        ExprKind::Index(e, i) => ExprKind::Index(Box::new(clone_expr(&**e)), clone_index(i)),
        ExprKind::Lit(lit, d) => ExprKind::Lit(*lit, *d),
        ExprKind::Member(e, id) => ExprKind::Member(Box::new(clone_expr(&**e)), *id),
        ExprKind::New(ty) => ExprKind::New(*ty),
        ExprKind::Payable(args) => ExprKind::Payable(clone_args(args)),
        ExprKind::Ternary(c, t, e) => ExprKind::Ternary(Box::new(clone_expr(&**c)), Box::new(clone_expr(&**t)), Box::new(clone_expr(&**e))),
        ExprKind::Tuple(v) => {
            let r = clone_opts(v);
            assert(forall|i: int| 0 <= i < r@.len() ==> same_opt(r@[i], v@[i]));
            ExprKind::Tuple(r)
        },
        ExprKind::TypeCall(ty) => ExprKind::TypeCall(*ty),
        ExprKind::Type(ty) => ExprKind::Type(*ty),
        ExprKind::Unary(op, e) => ExprKind::Unary(*op, Box::new(clone_expr(&**e))),
    }
}

impl Clone for Expr {
    /// A deep copy, alike `self` all the way down.
    fn clone(&self) -> (r: Self)
        ensures
            same_expr(r, *self),
    {
        clone_expr(self)
    }
}

impl Clone for ExprKind {
    /// A deep copy, alike `self` all the way down.
    fn clone(&self) -> (r: Self)
        ensures
            same_kind(r, *self),
    {
        clone_kind(self)
    }
}

impl Clone for CallArgs {
    /// A deep copy, alike `self` all the way down.
    fn clone(&self) -> (r: Self)
        ensures
            same_args(r, *self),
    {
        clone_args(self)
    }
}

impl Clone for NamedArg {
    /// A deep copy, alike `self` all the way down.
    fn clone(&self) -> (r: Self)
        ensures
            same_named(r, *self),
    {
        clone_named(self)
    }
}

impl Clone for IndexKind {
    /// A deep copy, alike `self` all the way down.
    fn clone(&self) -> (r: Self)
        ensures
            same_index(r, *self),
    {
        clone_index(self)
    }
}

} // verus!
