use dhall::builder::record_lit_of;
use dhall::dup_tree_map::{DupTreeMap, OneOrMore};
use dhall::expr::{chars_from_str, expr_eq, BinOp, Builtin, Chars, Expr, Exprs, Fields, Texts, Var};
use dhall::normalize::normalize;
use dhall::subst::{shift, subst};
use dhall::syntax::Span;
use dhall::typecheck::{prop_equal, type_of, TypeMessage};

fn lbl(s: &str) -> Chars {
    chars_from_str(s)
}

fn var(s: &str, i: u64) -> Expr {
    Expr::Var(Var { name: lbl(s), idx: i })
}

fn lam(x: &str, t: Expr, b: Expr) -> Expr {
    Expr::Lam(lbl(x), Box::new(t), Box::new(b))
}

fn app(f: Expr, a: Expr) -> Expr {
    Expr::App(Box::new(f), Box::new(a))
}

fn bin(op: BinOp, l: Expr, r: Expr) -> Expr {
    Expr::BinOp(op, Box::new(l), Box::new(r))
}

fn natlit(n: u64) -> Expr {
    Expr::NaturalLit(n)
}

fn bt(b: Builtin) -> Expr {
    Expr::Builtin(b)
}

fn list2(a: Expr, b: Expr) -> Expr {
    Expr::NEListLit(Exprs::Cons(
        Box::new(a),
        Box::new(Exprs::Cons(Box::new(b), Box::new(Exprs::Nil))),
    ))
}

fn text(s: &str) -> Texts {
    Texts::Text(lbl(s), Box::new(Texts::Nil))
}

#[test]
fn shift_shift_inverse_on_samples() {
    let x0 = Var { name: lbl("x"), idx: 0 };
    let samples = [
        var("x", 0),
        var("x", 3),
        var("y", 1),
        lam("x", bt(Builtin::Natural), var("x", 0)),
        lam("y", bt(Builtin::Natural), bin(BinOp::NaturalPlus, var("x", 0), var("y", 0))),
    ];
    for e in samples.iter() {
        let up = shift(1, &x0, e);
        let back = shift(-1, &x0, &up);
        assert!(expr_eq(&back, e));
    }
}

#[test]
fn subst_shift_inverse_on_samples() {
    let x0 = Var { name: lbl("x"), idx: 0 };
    let replacement = natlit(7);
    let samples = [
        var("x", 0),
        lam("x", bt(Builtin::Natural), var("x", 1)),
        bin(BinOp::NaturalPlus, var("x", 0), var("z", 2)),
    ];
    for e in samples.iter() {
        let up = shift(1, &x0, e);
        let back = subst(&x0, &replacement, &up);
        assert!(expr_eq(&back, e));
    }
}

#[test]
fn normalize_idempotent_on_samples() {
    let samples = [
        app(lam("x", bt(Builtin::Natural), var("x", 0)), natlit(5)),
        bin(BinOp::NaturalPlus, natlit(1), natlit(2)),
        Expr::BoolIf(Box::new(Expr::BoolLit(true)), Box::new(natlit(1)), Box::new(natlit(2))),
        lam("x", bt(Builtin::Natural), bin(BinOp::NaturalPlus, var("x", 0), natlit(0))),
        app(bt(Builtin::NaturalIsZero), var("y", 0)),
    ];
    for e in samples.iter() {
        let once = normalize(e);
        let twice = normalize(&once);
        assert_eq!(twice, once);
    }
}

#[test]
fn prop_equal_reflexive_symmetric_and_stable() {
    let a = bin(BinOp::NaturalPlus, natlit(1), natlit(2));
    let b = natlit(3);
    let c = natlit(4);
    assert!(prop_equal(&a, &a));
    assert!(prop_equal(&a, &b));
    assert!(prop_equal(&b, &a));
    assert!(!prop_equal(&a, &c));
    assert!(!prop_equal(&c, &a));
    // consistency with normalization
    assert_eq!(prop_equal(&a, &b), prop_equal(&normalize(&a), &normalize(&b)));
    assert_eq!(prop_equal(&a, &c), prop_equal(&normalize(&a), &normalize(&c)));
}

#[test]
fn beta_law_on_samples() {
    let x0 = Var { name: lbl("x"), idx: 0 };
    let body = bin(BinOp::NaturalPlus, var("x", 0), var("x", 0));
    let arg = natlit(21);
    let lhs = normalize(&app(lam("x", bt(Builtin::Natural), body.clone()), arg.clone()));
    let rhs = normalize(&subst(&x0, &arg, &body));
    assert_eq!(lhs, rhs);
    assert_eq!(lhs, natlit(42));
}

#[test]
fn fold_build_fusion() {
    let l = list2(natlit(1), natlit(2));
    let fused = app(
        app(bt(Builtin::ListBuild), bt(Builtin::Natural)),
        app(app(bt(Builtin::ListFold), bt(Builtin::Natural)), l.clone()),
    );
    assert_eq!(normalize(&fused), normalize(&l));
}

#[test]
fn natural_fold_build_fusion() {
    let n = natlit(3);
    let fused = app(bt(Builtin::NaturalBuild), app(bt(Builtin::NaturalFold), n.clone()));
    assert_eq!(normalize(&fused), n);
}

#[test]
fn identity_element_laws() {
    let x = var("x", 0);
    assert_eq!(normalize(&bin(BinOp::NaturalPlus, natlit(0), x.clone())), x);
    assert_eq!(normalize(&bin(BinOp::NaturalPlus, x.clone(), natlit(0))), x);
    assert_eq!(normalize(&bin(BinOp::NaturalTimes, natlit(1), x.clone())), x);
    assert_eq!(normalize(&bin(BinOp::NaturalTimes, x.clone(), natlit(1))), x);
    assert_eq!(normalize(&bin(BinOp::NaturalTimes, natlit(0), x.clone())), natlit(0));
    assert_eq!(
        normalize(&bin(BinOp::BoolAnd, Expr::BoolLit(true), x.clone())),
        x
    );
    assert_eq!(
        normalize(&bin(BinOp::BoolAnd, x.clone(), Expr::BoolLit(false))),
        Expr::BoolLit(false)
    );
    assert_eq!(
        normalize(&bin(BinOp::BoolOr, Expr::BoolLit(false), x.clone())),
        x
    );
    let el = Expr::EmptyListLit(Box::new(bt(Builtin::Natural)));
    assert_eq!(normalize(&bin(BinOp::ListAppend, el.clone(), x.clone())), x);
    assert_eq!(normalize(&bin(BinOp::ListAppend, x.clone(), el)), x);
    let et = Expr::TextLit(Texts::Nil);
    assert_eq!(normalize(&bin(BinOp::TextAppend, et.clone(), x.clone())), x);
    assert_eq!(normalize(&bin(BinOp::TextAppend, x.clone(), et)), x);
}

#[test]
fn arithmetic_on_literals() {
    assert_eq!(normalize(&bin(BinOp::NaturalPlus, natlit(2), natlit(3))), natlit(5));
    assert_eq!(normalize(&bin(BinOp::NaturalTimes, natlit(6), natlit(7))), natlit(42));
    assert_eq!(
        normalize(&bin(BinOp::BoolEQ, Expr::BoolLit(false), Expr::BoolLit(false))),
        Expr::BoolLit(true)
    );
}

#[test]
fn type_of_natural_literal() {
    let t = type_of(&natlit(5)).unwrap();
    assert_eq!(t, bt(Builtin::Natural));
}

#[test]
fn type_of_identity_lambda() {
    let id = lam("x", bt(Builtin::Natural), var("x", 0));
    let t = type_of(&id).unwrap();
    let expected = Expr::Pi(
        lbl("x"),
        Box::new(bt(Builtin::Natural)),
        Box::new(bt(Builtin::Natural)),
    );
    assert_eq!(t, expected);
}

#[test]
fn identity_application_checks_and_normalizes() {
    let id = lam("x", bt(Builtin::Natural), var("x", 0));
    let applied = app(id, natlit(5));
    let t = type_of(&applied).unwrap();
    assert_eq!(t, bt(Builtin::Natural));
    assert_eq!(normalize(&applied), natlit(5));
}

#[test]
fn applying_a_literal_is_not_a_function() {
    let e = app(natlit(1), natlit(2));
    let err = type_of(&e).unwrap_err();
    assert!(matches!(err.type_message, TypeMessage::NotAFunction(_, _)));
}

#[test]
fn mismatched_if_branches_are_rejected() {
    let left = record_lit_of(Fields::Cons(lbl("a"), Box::new(natlit(1)), Box::new(Fields::Nil)));
    let right = record_lit_of(Fields::Cons(
        lbl("a"),
        Box::new(Expr::BoolLit(true)),
        Box::new(Fields::Nil),
    ));
    let e = Expr::BoolIf(
        Box::new(Expr::BoolLit(true)),
        Box::new(Expr::Field(Box::new(left), lbl("a"))),
        Box::new(Expr::Field(Box::new(right), lbl("a"))),
    );
    let err = type_of(&e).unwrap_err();
    assert!(matches!(err.type_message, TypeMessage::IfBranchMismatch(_, _, _, _)));
}

#[test]
fn unbound_variable_is_rejected() {
    let err = type_of(&var("x", 0)).unwrap_err();
    assert!(matches!(err.type_message, TypeMessage::UnboundVariable));
}

#[test]
fn record_keys_come_out_sorted() {
    let unordered = Fields::Cons(
        lbl("b"),
        Box::new(natlit(2)),
        Box::new(Fields::Cons(lbl("a"), Box::new(natlit(1)), Box::new(Fields::Nil))),
    );
    let sorted = Fields::Cons(
        lbl("a"),
        Box::new(natlit(1)),
        Box::new(Fields::Cons(lbl("b"), Box::new(natlit(2)), Box::new(Fields::Nil))),
    );
    assert_eq!(record_lit_of(unordered), Expr::RecordLit(sorted));
}

#[test]
fn builtin_reductions() {
    assert_eq!(
        normalize(&app(bt(Builtin::NaturalIsZero), natlit(0))),
        Expr::BoolLit(true)
    );
    assert_eq!(
        normalize(&app(bt(Builtin::NaturalEven), natlit(3))),
        Expr::BoolLit(false)
    );
    assert_eq!(
        normalize(&app(bt(Builtin::NaturalShow), natlit(42))),
        Expr::TextLit(text("42"))
    );
    let l = list2(natlit(7), natlit(8));
    assert_eq!(
        normalize(&app(app(bt(Builtin::ListLength), bt(Builtin::Natural)), l.clone())),
        natlit(2)
    );
    assert_eq!(
        normalize(&app(app(bt(Builtin::ListReverse), bt(Builtin::Natural)), l.clone())),
        list2(natlit(8), natlit(7))
    );
    assert_eq!(
        normalize(&app(app(bt(Builtin::ListHead), bt(Builtin::Natural)), l)),
        Expr::SomeLit(Box::new(natlit(7)))
    );
}

#[test]
fn natural_fold_counts() {
    let succ = lam(
        "x",
        bt(Builtin::Natural),
        bin(BinOp::NaturalPlus, var("x", 0), natlit(1)),
    );
    let e = app(
        app(app(app(bt(Builtin::NaturalFold), natlit(3)), bt(Builtin::Natural)), succ),
        natlit(0),
    );
    assert_eq!(normalize(&e), natlit(3));
}

#[test]
fn text_interpolation_splices() {
    let inner = Expr::TextLit(text("b"));
    let parts = Texts::Text(
        lbl("a"),
        Box::new(Texts::Interp(
            Box::new(inner),
            Box::new(Texts::Text(lbl("c"), Box::new(Texts::Nil))),
        )),
    );
    assert_eq!(normalize(&Expr::TextLit(parts)), Expr::TextLit(text("abc")));
}

#[test]
fn lets_never_survive_normalization() {
    let e = Expr::Let(
        lbl("x"),
        None,
        Box::new(natlit(2)),
        Box::new(bin(BinOp::NaturalPlus, var("x", 0), natlit(1))),
    );
    assert_eq!(normalize(&e), natlit(3));
}

#[test]
fn if_with_equal_branches_collapses() {
    let e = Expr::BoolIf(Box::new(var("b", 0)), Box::new(natlit(1)), Box::new(natlit(1)));
    assert_eq!(normalize(&e), natlit(1));
}

#[test]
fn builtin_names_parse() {
    assert_eq!(Builtin::parse("Natural/fold"), Some(Builtin::NaturalFold));
    assert_eq!(Builtin::parse("List/build"), Some(Builtin::ListBuild));
    assert_eq!(Builtin::parse("Bool"), Some(Builtin::Bool));
    assert_eq!(Builtin::parse("nonsense"), None);
}

#[test]
fn dup_tree_map_counts_entries() {
    let mut m: DupTreeMap<u64> = DupTreeMap::new();
    assert!(m.is_empty());
    m.insert(lbl("b"), 1);
    m.insert(lbl("a"), 2);
    m.insert(lbl("a"), 3);
    assert_eq!(m.len(), 3);
    assert!(!m.is_empty());
}

#[test]
fn one_or_more_grows() {
    let mut o = OneOrMore::new(1u64);
    o.push(2);
    assert_eq!(o, OneOrMore::More(vec![1, 2]));
}

#[test]
fn span_carries_offsets() {
    let sp = Span { input: String::from("1 + 2"), start: 0, end: 5 };
    assert_eq!(sp.start, 0);
    assert_eq!(sp.end, 5);
}

#[test]
fn merge_selects_the_handler() {
    let alts = dhall::expr::Alts::Cons(lbl("A"), None, Box::new(dhall::expr::Alts::Nil));
    let scrutinee = Expr::Field(Box::new(Expr::Union(alts)), lbl("A"));
    let handlers = record_lit_of(Fields::Cons(lbl("A"), Box::new(natlit(9)), Box::new(Fields::Nil)));
    let e = Expr::Merge(Box::new(handlers), Box::new(scrutinee), None);
    assert_eq!(normalize(&e), natlit(9));
}

#[test]
fn bound_variable_does_not_match_one_past_the_binder() {
    // ∀(x : Type) -> x@0  versus  ∀(x : Type) -> x@1: the left body is the
    // bound variable, the right body points past the binder.
    let ty = Expr::Const(dhall::expr::Const::Type);
    let bound = Expr::Pi(lbl("x"), Box::new(ty.clone()), Box::new(var("x", 0)));
    let past = Expr::Pi(lbl("x"), Box::new(ty.clone()), Box::new(var("x", 1)));
    assert!(!prop_equal(&bound, &past));
    assert!(!prop_equal(&past, &bound));
    assert!(prop_equal(&bound, &bound));
    assert!(prop_equal(&past, &past));
}

#[test]
fn alpha_renamed_binders_compare_equal() {
    let ty = Expr::Const(dhall::expr::Const::Type);
    let with_x = Expr::Pi(lbl("x"), Box::new(ty.clone()), Box::new(var("x", 0)));
    let with_y = Expr::Pi(lbl("y"), Box::new(ty.clone()), Box::new(var("y", 0)));
    assert!(prop_equal(&with_x, &with_y));
}

#[test]
fn shadowed_binder_references_match_by_depth() {
    let ty = Expr::Const(dhall::expr::Const::Type);
    // ∀(x : Type) -> ∀(x : Type) -> x@1 refers to the outer binder, as does
    // ∀(x : Type) -> ∀(y : Type) -> x@0; ∀(x : Type) -> ∀(y : Type) -> y@0
    // refers to the inner one.
    let shadowed = Expr::Pi(
        lbl("x"),
        Box::new(ty.clone()),
        Box::new(Expr::Pi(lbl("x"), Box::new(ty.clone()), Box::new(var("x", 1)))),
    );
    let outer = Expr::Pi(
        lbl("x"),
        Box::new(ty.clone()),
        Box::new(Expr::Pi(lbl("y"), Box::new(ty.clone()), Box::new(var("x", 0)))),
    );
    let inner = Expr::Pi(
        lbl("x"),
        Box::new(ty.clone()),
        Box::new(Expr::Pi(lbl("y"), Box::new(ty.clone()), Box::new(var("y", 0)))),
    );
    assert!(prop_equal(&shadowed, &outer));
    assert!(!prop_equal(&shadowed, &inner));
    assert!(!prop_equal(&outer, &inner));
}

#[test]
fn error_descriptions_are_fixed() {
    let err = type_of(&var("x", 0)).unwrap_err();
    assert_eq!(err.type_message.description().as_str(), "Unbound variable");
    let err2 = type_of(&app(natlit(1), natlit(2))).unwrap_err();
    assert_eq!(err2.type_message.description().as_str(), "Not a function");
}

#[test]
fn one_or_more_indexed_walk() {
    let mut o = OneOrMore::new(10u64);
    assert_eq!(o.len(), 1);
    assert_eq!(*o.get(0), 10);
    o.push(20);
    o.push(30);
    assert_eq!(o.len(), 3);
    assert_eq!(*o.get(0), 10);
    assert_eq!(*o.get(1), 20);
    assert_eq!(*o.get(2), 30);
}

#[test]
fn dup_tree_map_walks_in_sorted_key_order() {
    let mut m: DupTreeMap<u64> = DupTreeMap::new();
    m.insert(lbl("b"), 1);
    m.insert(lbl("a"), 2);
    m.insert(lbl("a"), 3);
    let (k0, v0) = m.entry_at(0);
    assert!(expr_eq(
        &Expr::Var(Var { name: k0.clone(), idx: 0 }),
        &var("a", 0)
    ));
    assert_eq!(*v0, 2);
    let (_, v1) = m.entry_at(1);
    assert_eq!(*v1, 3);
    let (k2, v2) = m.entry_at(2);
    assert!(expr_eq(
        &Expr::Var(Var { name: k2.clone(), idx: 0 }),
        &var("b", 0)
    ));
    assert_eq!(*v2, 1);
}

#[test]
fn normalize_idempotent_on_stuck_shapes() {
    let samples = [
        // selection from an opaque record
        Expr::Field(Box::new(var("r", 0)), lbl("a")),
        // projection from an opaque record
        Expr::Projection(
            Box::new(var("r", 0)),
            dhall::expr::Labels::Cons(lbl("a"), Box::new(dhall::expr::Labels::Nil)),
        ),
        // conditional on an opaque predicate with distinct branches
        Expr::BoolIf(Box::new(var("b", 0)), Box::new(natlit(1)), Box::new(natlit(2))),
        // application of a free variable
        app(var("f", 0), natlit(1)),
    ];
    for e in samples.iter() {
        let once = normalize(e);
        let twice = normalize(&once);
        assert_eq!(twice, once);
        assert_eq!(once, *e);
    }
}
