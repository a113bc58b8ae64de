use sulk_ast::expr::{
    BinOp, BinOpKind, CallArgs, Expr, ExprKind, IndexKind, UnOp, UnOpKind,
};
use sulk_ast::interface::{Ident, Span, Symbol};
use sulk_ast::lit::{Lit, SubDenomination};
use sulk_ast::ty::Ty;

const ALL_BIN: [BinOpKind; 20] = [
    BinOpKind::Lt,
    BinOpKind::Le,
    BinOpKind::Gt,
    BinOpKind::Ge,
    BinOpKind::Eq,
    BinOpKind::Ne,
    BinOpKind::Or,
    BinOpKind::And,
    BinOpKind::Shr,
    BinOpKind::Shl,
    BinOpKind::Sar,
    BinOpKind::BitAnd,
    BinOpKind::BitOr,
    BinOpKind::BitXor,
    BinOpKind::Add,
    BinOpKind::Sub,
    BinOpKind::Pow,
    BinOpKind::Mul,
    BinOpKind::Div,
    BinOpKind::Rem,
];

const ALL_UN: [UnOpKind; 7] = [
    UnOpKind::PreInc,
    UnOpKind::PreDec,
    UnOpKind::Not,
    UnOpKind::Neg,
    UnOpKind::BitNot,
    UnOpKind::PostInc,
    UnOpKind::PostDec,
];

fn span(lo: u32, hi: u32) -> Span {
    Span { lo, hi }
}

fn ident(index: u32, lo: u32, hi: u32) -> Ident {
    Ident { name: Symbol { index }, span: span(lo, hi) }
}

fn ident_expr(index: u32, lo: u32) -> Box<Expr> {
    Box::new(Expr::from_ident(ident(index, lo, lo + 1)))
}

fn number(index: u32, lo: u32) -> Box<Expr> {
    let sp = span(lo, lo + 1);
    Box::new(Expr { span: sp, kind: ExprKind::Lit(Lit { span: sp, symbol: Symbol { index } }, None) })
}

#[test]
fn bin_op_spellings() {
    let expected = [
        "<", "<=", ">", ">=", "==", "!=", "||", "&&", ">>", "<<", ">>>", "&", "|", "^", "+", "-",
        "**", "*", "/", "%",
    ];
    for (k, s) in ALL_BIN.iter().zip(expected.iter()) {
        assert_eq!(k.to_str(), *s);
    }
    assert_eq!(BinOpKind::Sar.to_str(), ">>>");
    assert_eq!(BinOpKind::Pow.to_str(), "**");
}

#[test]
fn bin_op_spellings_non_empty_and_distinct() {
    for (i, a) in ALL_BIN.iter().enumerate() {
        assert!(!a.to_str().is_empty());
        for (j, b) in ALL_BIN.iter().enumerate() {
            if i != j {
                assert_ne!(a.to_str(), b.to_str(), "{:?} and {:?}", a, b);
            }
        }
    }
}

#[test]
fn assignable_table() {
    let yes = [
        BinOpKind::BitOr,
        BinOpKind::BitXor,
        BinOpKind::BitAnd,
        BinOpKind::Shl,
        BinOpKind::Shr,
        BinOpKind::Sar,
        BinOpKind::Add,
        BinOpKind::Sub,
        BinOpKind::Mul,
        BinOpKind::Div,
        BinOpKind::Rem,
    ];
    let no = [
        BinOpKind::Lt,
        BinOpKind::Le,
        BinOpKind::Gt,
        BinOpKind::Ge,
        BinOpKind::Eq,
        BinOpKind::Ne,
        BinOpKind::Or,
        BinOpKind::And,
        BinOpKind::Pow,
    ];
    for k in yes {
        assert!(k.assignable(), "{:?}", k);
    }
    for k in no {
        assert!(!k.assignable(), "{:?}", k);
    }
    assert_eq!(yes.len() + no.len(), ALL_BIN.len());
    assert_eq!(ALL_BIN.iter().filter(|k| k.assignable()).count(), 11);
}

#[test]
fn un_op_prefix_postfix_partition() {
    for k in ALL_UN {
        assert_ne!(k.is_prefix(), k.is_postfix(), "{:?}", k);
        assert_eq!(k.is_postfix(), !k.is_prefix());
    }
    assert!(UnOpKind::PreInc.is_prefix());
    assert!(UnOpKind::PreDec.is_prefix());
    assert!(UnOpKind::Not.is_prefix());
    assert!(UnOpKind::Neg.is_prefix());
    assert!(UnOpKind::BitNot.is_prefix());
    assert!(UnOpKind::PostInc.is_postfix());
    assert!(UnOpKind::PostDec.is_postfix());
}

#[test]
fn un_op_spellings() {
    assert_eq!(UnOpKind::PreInc.to_str(), "++");
    assert_eq!(UnOpKind::PostInc.to_str(), "++");
    assert_eq!(UnOpKind::PreDec.to_str(), "--");
    assert_eq!(UnOpKind::PostDec.to_str(), "--");
    assert_eq!(UnOpKind::Not.to_str(), "!");
    assert_eq!(UnOpKind::Neg.to_str(), "-");
    assert_eq!(UnOpKind::BitNot.to_str(), "~");
}

#[test]
fn op_display_spelling() {
    let b = BinOp { span: span(3, 6), kind: BinOpKind::Sar };
    assert_eq!(b.to_str(), ">>>");
    let u = UnOp { span: span(0, 1), kind: UnOpKind::BitNot };
    assert_eq!(u.to_str(), "~");
}

#[test]
fn empty_and_default_call_args_agree() {
    let e = CallArgs::empty();
    let d = CallArgs::default();
    assert!(matches!(&e, CallArgs::Unnamed(v) if v.is_empty()));
    assert!(matches!(&d, CallArgs::Unnamed(v) if v.is_empty()));
    assert_eq!(e, d);
}

#[test]
fn from_ident_keeps_span() {
    let id = ident(7, 10, 13);
    let e = Expr::from_ident(id);
    assert_eq!(e.span, span(10, 13));
    assert_eq!(e.kind, ExprKind::Ident(id));
}

#[test]
fn from_ty_keeps_span() {
    let ty = Ty { span: span(4, 11), name: Symbol { index: 2 } };
    let e = Expr::from_ty(ty);
    assert_eq!(e.span, span(4, 11));
    assert_eq!(e.kind, ExprKind::Type(ty));
}

#[test]
fn tuple_hole_is_kept() {
    // `(a,,b)`
    let with_hole = ExprKind::Tuple(vec![Some(ident_expr(0, 1)), None, Some(ident_expr(1, 4))]);
    // `(a,b)`
    let without = ExprKind::Tuple(vec![Some(ident_expr(0, 1)), Some(ident_expr(1, 3))]);
    match &with_hole {
        ExprKind::Tuple(slots) => {
            assert_eq!(slots.len(), 3);
            assert!(slots[0].is_some());
            assert!(slots[1].is_none());
            assert!(slots[2].is_some());
        }
        _ => panic!("not a tuple"),
    }
    match &without {
        ExprKind::Tuple(slots) => {
            assert_eq!(slots.len(), 2);
            assert!(slots.iter().all(|s| s.is_some()));
        }
        _ => panic!("not a tuple"),
    }
    assert_ne!(with_hole, without);
}

#[test]
fn index_and_range_forms() {
    // `v[1:]`, `v[:2]`, `v[:]`, `v[3]`
    let from = IndexKind::Range(Some(number(1, 2)), None);
    let to = IndexKind::Range(None, Some(number(2, 3)));
    let all = IndexKind::Range(None, None);
    let single = IndexKind::Index(Some(number(3, 2)));
    assert!(matches!(&from, IndexKind::Range(Some(_), None)));
    assert!(matches!(&to, IndexKind::Range(None, Some(_))));
    assert!(matches!(&all, IndexKind::Range(None, None)));
    assert!(matches!(&single, IndexKind::Index(Some(_))));
    let e = Expr { span: span(0, 4), kind: ExprKind::Index(ident_expr(9, 0), single) };
    assert!(matches!(e.kind, ExprKind::Index(_, IndexKind::Index(Some(_)))));
}

#[test]
fn queries_repeat() {
    for k in ALL_BIN {
        assert_eq!(k.to_str(), k.to_str());
        assert_eq!(k.assignable(), k.assignable());
    }
    for k in ALL_UN {
        assert_eq!(k.to_str(), k.to_str());
        assert_eq!(k.is_prefix(), k.is_prefix());
    }
}

#[test]
fn compound_assignment_and_denominated_literal() {
    // `a += 5 ether`
    let sp = span(5, 12);
    let value = Box::new(Expr {
        span: sp,
        kind: ExprKind::Lit(Lit { span: span(5, 6), symbol: Symbol { index: 4 } }, Some(SubDenomination::Ether)),
    });
    let op = BinOp { span: span(2, 4), kind: BinOpKind::Add };
    assert!(op.kind.assignable());
    let e = Expr { span: span(0, 12), kind: ExprKind::Assign(ident_expr(0, 0), Some(op), value) };
    match &e.kind {
        ExprKind::Assign(_, Some(o), v) => {
            assert_eq!(o.to_str(), "+");
            assert!(matches!(v.kind, ExprKind::Lit(_, Some(SubDenomination::Ether))));
        }
        _ => panic!("not an assignment"),
    }
}

#[test]
fn clone_is_deep_and_equal() {
    // `f(a, [b], (c,,d))[1:]`
    let call = Expr {
        span: span(0, 16),
        kind: ExprKind::Call(
            ident_expr(0, 0),
            CallArgs::Unnamed(vec![
                ident_expr(1, 2),
                Box::new(Expr { span: span(5, 8), kind: ExprKind::Array(vec![ident_expr(2, 6)]) }),
                Box::new(Expr {
                    span: span(10, 16),
                    kind: ExprKind::Tuple(vec![Some(ident_expr(3, 11)), None, Some(ident_expr(4, 14))]),
                }),
            ]),
        ),
    };
    let e = Expr { span: span(0, 21), kind: ExprKind::Index(Box::new(call), IndexKind::Range(Some(number(5, 18)), None)) };
    let c = e.clone();
    assert_eq!(c, e);
    assert_eq!(c.span, span(0, 21));
    match &c.kind {
        ExprKind::Index(base, IndexKind::Range(Some(_), None)) => match &base.kind {
            ExprKind::Call(_, CallArgs::Unnamed(args)) => {
                assert_eq!(args.len(), 3);
                assert!(matches!(&args[2].kind, ExprKind::Tuple(slots) if slots.len() == 3 && slots[1].is_none()));
            }
            _ => panic!("not a call"),
        },
        _ => panic!("not a slice"),
    }
}

#[test]
fn clone_keeps_named_arguments() {
    // `f{value: 1}`
    let e = ExprKind::CallOptions(
        ident_expr(0, 0),
        vec![sulk_ast::expr::NamedArg { name: ident(1, 2, 7), value: number(2, 9) }],
    );
    let c = e.clone();
    assert_eq!(c, e);
    let args = CallArgs::Named(vec![sulk_ast::expr::NamedArg { name: ident(3, 1, 2), value: ident_expr(4, 4) }]);
    assert_eq!(args.clone(), args);
    assert_ne!(args, CallArgs::empty());
}
