//! Scope-correct shift and substitution primitives.
//!
//! `shift` renumbers the free occurrences of one named variable when a term
//! crosses a binder boundary.  `subst` replaces a specific bound occurrence
//! with a value, shifting the replacement as it descends under binders and
//! renumbering the remaining occurrences that referred past the removed
//! binder.
//!
//! Indices are machine words; an index that an adjustment would push outside
//! `0 ..= u64::MAX` saturates at the boundary.  The inverse laws therefore
//! hold for every term whose indices stay below `u64::MAX`, which
//! [`idx_ok_expr`] captures.

use vstd::prelude::*;

use crate::expr::{Alts, Chars, Expr, Exprs, Fields, Texts, Var};
use crate::expr::{chars_clone, chars_eq, clone_expr, clone_labels, clone_var};

verus! {

/// One more than the largest variable index a term may hold for the
/// shift laws to apply.
pub open spec fn idx_cap() -> u64 {
    u64::MAX
}

/// Adds a signed offset to an index, saturating at `0` and at `u64::MAX`.
pub open spec fn add_delta(m: u64, d: i64) -> u64 {
    let k = m + d;
    if k < 0 {
        0u64
    } else if k > u64::MAX {
        u64::MAX
    } else {
        k as u64
    }
}

/// The target variable adjusted for crossing a binder named `x`: indices
/// measured relative to the deeper scope stay correct.
pub open spec fn bump_var(v: Var, x: Chars) -> Var {
    if x == v.name {
        Var { name: v.name, idx: add_delta(v.idx, 1) }
    } else {
        v
    }
}

/// Renumbers the free occurrences of `v` in `e` by `d`: an occurrence whose
/// name matches and whose index is at least `v.idx` has `d` added to its
/// index; crossing a binder of the same name raises the cutoff by one.
pub open spec fn shift_expr(d: i64, v: Var, e: Expr) -> Expr
    decreases e,
{
    match e {
        Expr::Const(_) => e,
        Expr::Var(w) => {
            if w.name == v.name && w.idx >= v.idx {
                Expr::Var(Var { name: w.name, idx: add_delta(w.idx, d) })
            } else {
                Expr::Var(w)
            }
        },
        Expr::Lam(x, t, b) => Expr::Lam(
            x,
            Box::new(shift_expr(d, v, *t)),
            Box::new(shift_expr(d, bump_var(v, x), *b)),
        ),
        Expr::Pi(x, t, b) => Expr::Pi(
            x,
            Box::new(shift_expr(d, v, *t)),
            Box::new(shift_expr(d, bump_var(v, x), *b)),
        ),
        Expr::App(f, a) => Expr::App(
            Box::new(shift_expr(d, v, *f)),
            Box::new(shift_expr(d, v, *a)),
        ),
        Expr::Let(x, t, r, b) => Expr::Let(
            x,
            shift_opt(d, v, t),
            Box::new(shift_expr(d, v, *r)),
            Box::new(shift_expr(d, bump_var(v, x), *b)),
        ),
        Expr::Annot(a, t) => Expr::Annot(
            Box::new(shift_expr(d, v, *a)),
            Box::new(shift_expr(d, v, *t)),
        ),
        Expr::Builtin(_) => e,
        Expr::BoolLit(_) => e,
        Expr::BoolIf(c, x, y) => Expr::BoolIf(
            Box::new(shift_expr(d, v, *c)),
            Box::new(shift_expr(d, v, *x)),
            Box::new(shift_expr(d, v, *y)),
        ),
        Expr::NaturalLit(_) => e,
        Expr::IntegerLit(_) => e,
        Expr::DoubleLit(_) => e,
        Expr::TextLit(ts) => Expr::TextLit(shift_texts(d, v, ts)),
        Expr::BinOp(op, l, r) => Expr::BinOp(
            op,
            Box::new(shift_expr(d, v, *l)),
            Box::new(shift_expr(d, v, *r)),
        ),
        Expr::EmptyListLit(t) => Expr::EmptyListLit(Box::new(shift_expr(d, v, *t))),
        Expr::NEListLit(xs) => Expr::NEListLit(shift_exprs(d, v, xs)),
        Expr::OptionalLit(t, xs) => Expr::OptionalLit(
            Box::new(shift_expr(d, v, *t)),
            shift_exprs(d, v, xs),
        ),
        Expr::SomeLit(x) => Expr::SomeLit(Box::new(shift_expr(d, v, *x))),
        Expr::Record(fs) => Expr::Record(shift_fields(d, v, fs)),
        Expr::RecordLit(fs) => Expr::RecordLit(shift_fields(d, v, fs)),
        Expr::Union(alts) => Expr::Union(shift_alts(d, v, alts)),
        Expr::UnionLit(l, x, alts) => Expr::UnionLit(
            l,
            Box::new(shift_expr(d, v, *x)),
            shift_alts(d, v, alts),
        ),
        Expr::Field(r, x) => Expr::Field(Box::new(shift_expr(d, v, *r)), x),
        Expr::Projection(r, ls) => Expr::Projection(Box::new(shift_expr(d, v, *r)), ls),
        Expr::Merge(h, u, t) => Expr::Merge(
            Box::new(shift_expr(d, v, *h)),
            Box::new(shift_expr(d, v, *u)),
            shift_opt(d, v, t),
        ),
    }
}

/// [`shift_expr`] through an optional sub-term.
pub open spec fn shift_opt(d: i64, v: Var, o: Option<Box<Expr>>) -> Option<Box<Expr>>
    decreases o,
{
    match o {
        Option::None => Option::None,
        Option::Some(e) => Option::Some(Box::new(shift_expr(d, v, *e))),
    }
}

/// [`shift_expr`] through each element of an expression list.
pub open spec fn shift_exprs(d: i64, v: Var, xs: Exprs) -> Exprs
    decreases xs,
{
    match xs {
        Exprs::Nil => Exprs::Nil,
        Exprs::Cons(x, rest) => Exprs::Cons(
            Box::new(shift_expr(d, v, *x)),
            Box::new(shift_exprs(d, v, *rest)),
        ),
    }
}

/// [`shift_expr`] through each field value; record fields bind nothing.
pub open spec fn shift_fields(d: i64, v: Var, fs: Fields) -> Fields
    decreases fs,
{
    match fs {
        Fields::Nil => Fields::Nil,
        Fields::Cons(k, x, rest) => Fields::Cons(
            k,
            Box::new(shift_expr(d, v, *x)),
            Box::new(shift_fields(d, v, *rest)),
        ),
    }
}

/// [`shift_expr`] through each alternative's payload type.
pub open spec fn shift_alts(d: i64, v: Var, alts: Alts) -> Alts
    decreases alts,
{
    match alts {
        Alts::Nil => Alts::Nil,
        Alts::Cons(k, x, rest) => Alts::Cons(
            k,
            shift_opt(d, v, x),
            Box::new(shift_alts(d, v, *rest)),
        ),
    }
}

/// [`shift_expr`] through each interpolation hole; text binds nothing.
pub open spec fn shift_texts(d: i64, v: Var, ts: Texts) -> Texts
    decreases ts,
{
    match ts {
        Texts::Nil => Texts::Nil,
        Texts::Text(s, rest) => Texts::Text(s, Box::new(shift_texts(d, v, *rest))),
        Texts::Interp(e, rest) => Texts::Interp(
            Box::new(shift_expr(d, v, *e)),
            Box::new(shift_texts(d, v, *rest)),
        ),
    }
}

} // verus!

verus! {

/// Replaces every free occurrence of `v` in `e` with `r`: a matching
/// occurrence at exactly `v.idx` becomes `r` (shifted by the binders crossed
/// on the way down), a matching occurrence past `v.idx` is renumbered down
/// by one, and crossing a binder of the same name raises the target index.
pub open spec fn subst_expr(v: Var, r: Expr, e: Expr) -> Expr
    decreases e,
{
    match e {
        Expr::Const(_) => e,
        Expr::Var(w) => {
            if w.name == v.name {
                if w.idx == v.idx {
                    r
                } else if w.idx > v.idx {
                    Expr::Var(Var { name: w.name, idx: (w.idx - 1) as u64 })
                } else {
                    Expr::Var(w)
                }
            } else {
                Expr::Var(w)
            }
        },
        Expr::Lam(x, t, b) => Expr::Lam(
            x,
            Box::new(subst_expr(v, r, *t)),
            Box::new(subst_expr(bump_var(v, x), shift_expr(1i64, Var { name: x, idx: 0 }, r), *b)),
        ),
        Expr::Pi(x, t, b) => Expr::Pi(
            x,
            Box::new(subst_expr(v, r, *t)),
            Box::new(subst_expr(bump_var(v, x), shift_expr(1i64, Var { name: x, idx: 0 }, r), *b)),
        ),
        Expr::App(f, a) => Expr::App(
            Box::new(subst_expr(v, r, *f)),
            Box::new(subst_expr(v, r, *a)),
        ),
        Expr::Let(x, t, rr, b) => Expr::Let(
            x,
            subst_opt(v, r, t),
            Box::new(subst_expr(v, r, *rr)),
            Box::new(subst_expr(bump_var(v, x), shift_expr(1i64, Var { name: x, idx: 0 }, r), *b)),
        ),
        Expr::Annot(a, t) => Expr::Annot(
            Box::new(subst_expr(v, r, *a)),
            Box::new(subst_expr(v, r, *t)),
        ),
        Expr::Builtin(_) => e,
        Expr::BoolLit(_) => e,
        Expr::BoolIf(c, x, y) => Expr::BoolIf(
            Box::new(subst_expr(v, r, *c)),
            Box::new(subst_expr(v, r, *x)),
            Box::new(subst_expr(v, r, *y)),
        ),
        Expr::NaturalLit(_) => e,
        Expr::IntegerLit(_) => e,
        Expr::DoubleLit(_) => e,
        Expr::TextLit(ts) => Expr::TextLit(subst_texts(v, r, ts)),
        Expr::BinOp(op, l, rr) => Expr::BinOp(
            op,
            Box::new(subst_expr(v, r, *l)),
            Box::new(subst_expr(v, r, *rr)),
        ),
        Expr::EmptyListLit(t) => Expr::EmptyListLit(Box::new(subst_expr(v, r, *t))),
        Expr::NEListLit(xs) => Expr::NEListLit(subst_exprs(v, r, xs)),
        Expr::OptionalLit(t, xs) => Expr::OptionalLit(
            Box::new(subst_expr(v, r, *t)),
            subst_exprs(v, r, xs),
        ),
        Expr::SomeLit(x) => Expr::SomeLit(Box::new(subst_expr(v, r, *x))),
        Expr::Record(fs) => Expr::Record(subst_fields(v, r, fs)),
        Expr::RecordLit(fs) => Expr::RecordLit(subst_fields(v, r, fs)),
        Expr::Union(alts) => Expr::Union(subst_alts(v, r, alts)),
        Expr::UnionLit(l, x, alts) => Expr::UnionLit(
            l,
            Box::new(subst_expr(v, r, *x)),
            subst_alts(v, r, alts),
        ),
        Expr::Field(rr, x) => Expr::Field(Box::new(subst_expr(v, r, *rr)), x),
        Expr::Projection(rr, ls) => Expr::Projection(Box::new(subst_expr(v, r, *rr)), ls),
        Expr::Merge(h, u, t) => Expr::Merge(
            Box::new(subst_expr(v, r, *h)),
            Box::new(subst_expr(v, r, *u)),
            subst_opt(v, r, t),
        ),
    }
}

/// [`subst_expr`] through an optional sub-term.
pub open spec fn subst_opt(v: Var, r: Expr, o: Option<Box<Expr>>) -> Option<Box<Expr>>
    decreases o,
{
    match o {
        Option::None => Option::None,
        Option::Some(e) => Option::Some(Box::new(subst_expr(v, r, *e))),
    }
}

/// [`subst_expr`] through each element of an expression list.
pub open spec fn subst_exprs(v: Var, r: Expr, xs: Exprs) -> Exprs
    decreases xs,
{
    match xs {
        Exprs::Nil => Exprs::Nil,
        Exprs::Cons(x, rest) => Exprs::Cons(
            Box::new(subst_expr(v, r, *x)),
            Box::new(subst_exprs(v, r, *rest)),
        ),
    }
}

/// [`subst_expr`] through each field value.
pub open spec fn subst_fields(v: Var, r: Expr, fs: Fields) -> Fields
    decreases fs,
{
    match fs {
        Fields::Nil => Fields::Nil,
        Fields::Cons(k, x, rest) => Fields::Cons(
            k,
            Box::new(subst_expr(v, r, *x)),
            Box::new(subst_fields(v, r, *rest)),
        ),
    }
}

/// [`subst_expr`] through each alternative's payload type.
pub open spec fn subst_alts(v: Var, r: Expr, alts: Alts) -> Alts
    decreases alts,
{
    match alts {
        Alts::Nil => Alts::Nil,
        Alts::Cons(k, x, rest) => Alts::Cons(
            k,
            subst_opt(v, r, x),
            Box::new(subst_alts(v, r, *rest)),
        ),
    }
}

/// [`subst_expr`] through each interpolation hole.
pub open spec fn subst_texts(v: Var, r: Expr, ts: Texts) -> Texts
    decreases ts,
{
    match ts {
        Texts::Nil => Texts::Nil,
        Texts::Text(s, rest) => Texts::Text(s, Box::new(subst_texts(v, r, *rest))),
        Texts::Interp(e, rest) => Texts::Interp(
            Box::new(subst_expr(v, r, *e)),
            Box::new(subst_texts(v, r, *rest)),
        ),
    }
}

/// Every variable index in `e` is strictly below `u64::MAX`, so no shift by
/// one can saturate.
pub open spec fn idx_ok_expr(e: Expr) -> bool
    decreases e,
{
    match e {
        Expr::Const(_) => true,
        Expr::Var(w) => w.idx < idx_cap(),
        Expr::Lam(_, t, b) => idx_ok_expr(*t) && idx_ok_expr(*b),
        Expr::Pi(_, t, b) => idx_ok_expr(*t) && idx_ok_expr(*b),
        Expr::App(f, a) => idx_ok_expr(*f) && idx_ok_expr(*a),
        Expr::Let(_, t, r, b) => idx_ok_opt(t) && idx_ok_expr(*r) && idx_ok_expr(*b),
        Expr::Annot(a, t) => idx_ok_expr(*a) && idx_ok_expr(*t),
        Expr::Builtin(_) => true,
        Expr::BoolLit(_) => true,
        Expr::BoolIf(c, x, y) => idx_ok_expr(*c) && idx_ok_expr(*x) && idx_ok_expr(*y),
        Expr::NaturalLit(_) => true,
        Expr::IntegerLit(_) => true,
        Expr::DoubleLit(_) => true,
        Expr::TextLit(ts) => idx_ok_texts(ts),
        Expr::BinOp(_, l, r) => idx_ok_expr(*l) && idx_ok_expr(*r),
        Expr::EmptyListLit(t) => idx_ok_expr(*t),
        Expr::NEListLit(xs) => idx_ok_exprs(xs),
        Expr::OptionalLit(t, xs) => idx_ok_expr(*t) && idx_ok_exprs(xs),
        Expr::SomeLit(x) => idx_ok_expr(*x),
        Expr::Record(fs) => idx_ok_fields(fs),
        Expr::RecordLit(fs) => idx_ok_fields(fs),
        Expr::Union(alts) => idx_ok_alts(alts),
        Expr::UnionLit(_, x, alts) => idx_ok_expr(*x) && idx_ok_alts(alts),
        Expr::Field(r, _) => idx_ok_expr(*r),
        Expr::Projection(r, _) => idx_ok_expr(*r),
        Expr::Merge(h, u, t) => idx_ok_expr(*h) && idx_ok_expr(*u) && idx_ok_opt(t),
    }
}

/// [`idx_ok_expr`] through an optional sub-term.
pub open spec fn idx_ok_opt(o: Option<Box<Expr>>) -> bool
    decreases o,
{
    match o {
        Option::None => true,
        Option::Some(e) => idx_ok_expr(*e),
    }
}

/// [`idx_ok_expr`] through each element of an expression list.
pub open spec fn idx_ok_exprs(xs: Exprs) -> bool
    decreases xs,
{
    match xs {
        Exprs::Nil => true,
        Exprs::Cons(x, rest) => idx_ok_expr(*x) && idx_ok_exprs(*rest),
    }
}

/// [`idx_ok_expr`] through each field value.
pub open spec fn idx_ok_fields(fs: Fields) -> bool
    decreases fs,
{
    match fs {
        Fields::Nil => true,
        Fields::Cons(_, x, rest) => idx_ok_expr(*x) && idx_ok_fields(*rest),
    }
}

/// [`idx_ok_expr`] through each alternative's payload type.
pub open spec fn idx_ok_alts(alts: Alts) -> bool
    decreases alts,
{
    match alts {
        Alts::Nil => true,
        Alts::Cons(_, x, rest) => idx_ok_opt(x) && idx_ok_alts(*rest),
    }
}

/// [`idx_ok_expr`] through each interpolation hole.
pub open spec fn idx_ok_texts(ts: Texts) -> bool
    decreases ts,
{
    match ts {
        Texts::Nil => true,
        Texts::Text(_, rest) => idx_ok_texts(*rest),
        Texts::Interp(e, rest) => idx_ok_expr(*e) && idx_ok_texts(*rest),
    }
}

} // verus!

verus! {

/// Adds a signed offset to an index, saturating at the ends of the `u64`
/// range, as [`add_delta`] describes.
pub fn add_delta_exec(m: u64, d: i64) -> (res: u64)
    ensures
        res == add_delta(m, d),
{
    if d >= 0 {
        let du = d as u64;
        if m <= u64::MAX - du {
            m + du
        } else {
            u64::MAX
        }
    } else {
        let du: u64 = if d == i64::MIN {
            0x8000_0000_0000_0000u64
        } else {
            (-d) as u64
        };
        if m >= du {
            m - du
        } else {
            0
        }
    }
}

/// Adjusts the target variable for crossing a binder named `x`.
pub fn bump_var_exec(v: &Var, x: &Chars) -> (res: Var)
    ensures
        res == bump_var(*v, *x),
{
    if chars_eq(x, &v.name) {
        Var { name: chars_clone(&v.name), idx: add_delta_exec(v.idx, 1) }
    } else {
        clone_var(v)
    }
}

/// Renumbers the free occurrences of `v` in `e` by `d`; see [`shift_expr`].
pub fn shift(d: i64, v: &Var, e: &Expr) -> (res: Expr)
    ensures
        res == shift_expr(d, *v, *e),
    decreases *e,
{
    match e {
        Expr::Const(c) => Expr::Const(*c),
        Expr::Var(w) => {
            if chars_eq(&w.name, &v.name) && w.idx >= v.idx {
                Expr::Var(Var { name: chars_clone(&w.name), idx: add_delta_exec(w.idx, d) })
            } else {
                Expr::Var(clone_var(w))
            }
        },
        Expr::Lam(x, t, b) => {
            let v2 = bump_var_exec(v, x);
            Expr::Lam(chars_clone(x), Box::new(shift(d, v, t)), Box::new(shift(d, &v2, b)))
        },
        Expr::Pi(x, t, b) => {
            let v2 = bump_var_exec(v, x);
            Expr::Pi(chars_clone(x), Box::new(shift(d, v, t)), Box::new(shift(d, &v2, b)))
        },
        Expr::App(f, a) => Expr::App(Box::new(shift(d, v, f)), Box::new(shift(d, v, a))),
        Expr::Let(x, t, r, b) => {
            let v2 = bump_var_exec(v, x);
            Expr::Let(
                chars_clone(x),
                shift_opt_exec(d, v, t),
                Box::new(shift(d, v, r)),
                Box::new(shift(d, &v2, b)),
            )
        },
        Expr::Annot(a, t) => Expr::Annot(Box::new(shift(d, v, a)), Box::new(shift(d, v, t))),
        Expr::Builtin(b) => Expr::Builtin(*b),
        Expr::BoolLit(b) => Expr::BoolLit(*b),
        Expr::BoolIf(c, x, y) => Expr::BoolIf(
            Box::new(shift(d, v, c)),
            Box::new(shift(d, v, x)),
            Box::new(shift(d, v, y)),
        ),
        Expr::NaturalLit(n) => Expr::NaturalLit(*n),
        Expr::IntegerLit(n) => Expr::IntegerLit(*n),
        Expr::DoubleLit(n) => Expr::DoubleLit(*n),
        Expr::TextLit(ts) => Expr::TextLit(shift_texts_exec(d, v, ts)),
        Expr::BinOp(op, l, r) => Expr::BinOp(
            *op,
            Box::new(shift(d, v, l)),
            Box::new(shift(d, v, r)),
        ),
        Expr::EmptyListLit(t) => Expr::EmptyListLit(Box::new(shift(d, v, t))),
        Expr::NEListLit(xs) => Expr::NEListLit(shift_exprs_exec(d, v, xs)),
        Expr::OptionalLit(t, xs) => Expr::OptionalLit(
            Box::new(shift(d, v, t)),
            shift_exprs_exec(d, v, xs),
        ),
        Expr::SomeLit(x) => Expr::SomeLit(Box::new(shift(d, v, x))),
        Expr::Record(fs) => Expr::Record(shift_fields_exec(d, v, fs)),
        Expr::RecordLit(fs) => Expr::RecordLit(shift_fields_exec(d, v, fs)),
        Expr::Union(alts) => Expr::Union(shift_alts_exec(d, v, alts)),
        Expr::UnionLit(l, x, alts) => Expr::UnionLit(
            chars_clone(l),
            Box::new(shift(d, v, x)),
            shift_alts_exec(d, v, alts),
        ),
        Expr::Field(r, x) => Expr::Field(Box::new(shift(d, v, r)), chars_clone(x)),
        Expr::Projection(r, ls) => Expr::Projection(Box::new(shift(d, v, r)), clone_labels(ls)),
        Expr::Merge(h, u, t) => Expr::Merge(
            Box::new(shift(d, v, h)),
            Box::new(shift(d, v, u)),
            shift_opt_exec(d, v, t),
        ),
    }
}

/// Shifts only the variables free at the outermost level relative to one
/// name: the form used when a term crosses a single freshly introduced
/// binder.
pub fn shift0(d: i64, x: &Chars, e: &Expr) -> (res: Expr)
    ensures
        res == shift_expr(d, Var { name: *x, idx: 0 }, *e),
{
    let v = Var { name: chars_clone(x), idx: 0 };
    shift(d, &v, e)
}

fn shift_opt_exec(d: i64, v: &Var, o: &Option<Box<Expr>>) -> (res: Option<Box<Expr>>)
    ensures
        res == shift_opt(d, *v, *o),
    decreases *o,
{
    match o {
        Option::None => Option::None,
        Option::Some(e) => Option::Some(Box::new(shift(d, v, e))),
    }
}

fn shift_exprs_exec(d: i64, v: &Var, xs: &Exprs) -> (res: Exprs)
    ensures
        res == shift_exprs(d, *v, *xs),
    decreases *xs,
{
    match xs {
        Exprs::Nil => Exprs::Nil,
        Exprs::Cons(x, rest) => Exprs::Cons(
            Box::new(shift(d, v, x)),
            Box::new(shift_exprs_exec(d, v, rest)),
        ),
    }
}

fn shift_fields_exec(d: i64, v: &Var, fs: &Fields) -> (res: Fields)
    ensures
        res == shift_fields(d, *v, *fs),
    decreases *fs,
{
    match fs {
        Fields::Nil => Fields::Nil,
        Fields::Cons(k, x, rest) => Fields::Cons(
            chars_clone(k),
            Box::new(shift(d, v, x)),
            Box::new(shift_fields_exec(d, v, rest)),
        ),
    }
}

fn shift_alts_exec(d: i64, v: &Var, alts: &Alts) -> (res: Alts)
    ensures
        res == shift_alts(d, *v, *alts),
    decreases *alts,
{
    match alts {
        Alts::Nil => Alts::Nil,
        Alts::Cons(k, x, rest) => Alts::Cons(
            chars_clone(k),
            shift_opt_exec(d, v, x),
            Box::new(shift_alts_exec(d, v, rest)),
        ),
    }
}

fn shift_texts_exec(d: i64, v: &Var, ts: &Texts) -> (res: Texts)
    ensures
        res == shift_texts(d, *v, *ts),
    decreases *ts,
{
    match ts {
        Texts::Nil => Texts::Nil,
        Texts::Text(s, rest) => Texts::Text(
            chars_clone(s),
            Box::new(shift_texts_exec(d, v, rest)),
        ),
        Texts::Interp(e, rest) => Texts::Interp(
            Box::new(shift(d, v, e)),
            Box::new(shift_texts_exec(d, v, rest)),
        ),
    }
}

/// Replaces every free occurrence of `v` in `e` with `r`; see
/// [`subst_expr`].
pub fn subst(v: &Var, r: &Expr, e: &Expr) -> (res: Expr)
    ensures
        res == subst_expr(*v, *r, *e),
    decreases *e,
{
    match e {
        Expr::Const(c) => Expr::Const(*c),
        Expr::Var(w) => {
            if chars_eq(&w.name, &v.name) {
                if w.idx == v.idx {
                    clone_expr(r)
                } else if w.idx > v.idx {
                    Expr::Var(Var { name: chars_clone(&w.name), idx: w.idx - 1 })
                } else {
                    Expr::Var(clone_var(w))
                }
            } else {
                Expr::Var(clone_var(w))
            }
        },
        Expr::Lam(x, t, b) => {
            let v2 = bump_var_exec(v, x);
            let r2 = shift0(1, x, r);
            Expr::Lam(chars_clone(x), Box::new(subst(v, r, t)), Box::new(subst(&v2, &r2, b)))
        },
        Expr::Pi(x, t, b) => {
            let v2 = bump_var_exec(v, x);
            let r2 = shift0(1, x, r);
            Expr::Pi(chars_clone(x), Box::new(subst(v, r, t)), Box::new(subst(&v2, &r2, b)))
        },
        Expr::App(f, a) => Expr::App(Box::new(subst(v, r, f)), Box::new(subst(v, r, a))),
        Expr::Let(x, t, rr, b) => {
            let v2 = bump_var_exec(v, x);
            let r2 = shift0(1, x, r);
            Expr::Let(
                chars_clone(x),
                subst_opt_exec(v, r, t),
                Box::new(subst(v, r, rr)),
                Box::new(subst(&v2, &r2, b)),
            )
        },
        Expr::Annot(a, t) => Expr::Annot(Box::new(subst(v, r, a)), Box::new(subst(v, r, t))),
        Expr::Builtin(b) => Expr::Builtin(*b),
        Expr::BoolLit(b) => Expr::BoolLit(*b),
        Expr::BoolIf(c, x, y) => Expr::BoolIf(
            Box::new(subst(v, r, c)),
            Box::new(subst(v, r, x)),
            Box::new(subst(v, r, y)),
        ),
        Expr::NaturalLit(n) => Expr::NaturalLit(*n),
        Expr::IntegerLit(n) => Expr::IntegerLit(*n),
        Expr::DoubleLit(n) => Expr::DoubleLit(*n),
        Expr::TextLit(ts) => Expr::TextLit(subst_texts_exec(v, r, ts)),
        Expr::BinOp(op, l, rr) => Expr::BinOp(
            *op,
            Box::new(subst(v, r, l)),
            Box::new(subst(v, r, rr)),
        ),
        Expr::EmptyListLit(t) => Expr::EmptyListLit(Box::new(subst(v, r, t))),
        Expr::NEListLit(xs) => Expr::NEListLit(subst_exprs_exec(v, r, xs)),
        Expr::OptionalLit(t, xs) => Expr::OptionalLit(
            Box::new(subst(v, r, t)),
            subst_exprs_exec(v, r, xs),
        ),
        Expr::SomeLit(x) => Expr::SomeLit(Box::new(subst(v, r, x))),
        Expr::Record(fs) => Expr::Record(subst_fields_exec(v, r, fs)),
        Expr::RecordLit(fs) => Expr::RecordLit(subst_fields_exec(v, r, fs)),
        Expr::Union(alts) => Expr::Union(subst_alts_exec(v, r, alts)),
        Expr::UnionLit(l, x, alts) => Expr::UnionLit(
            chars_clone(l),
            Box::new(subst(v, r, x)),
            subst_alts_exec(v, r, alts),
        ),
        Expr::Field(rr, x) => Expr::Field(Box::new(subst(v, r, rr)), chars_clone(x)),
        Expr::Projection(rr, ls) => Expr::Projection(
            Box::new(subst(v, r, rr)),
            clone_labels(ls),
        ),
        Expr::Merge(h, u, t) => Expr::Merge(
            Box::new(subst(v, r, h)),
            Box::new(subst(v, r, u)),
            subst_opt_exec(v, r, t),
        ),
    }
}

fn subst_opt_exec(v: &Var, r: &Expr, o: &Option<Box<Expr>>) -> (res: Option<Box<Expr>>)
    ensures
        res == subst_opt(*v, *r, *o),
    decreases *o,
{
    match o {
        Option::None => Option::None,
        Option::Some(e) => Option::Some(Box::new(subst(v, r, e))),
    }
}

fn subst_exprs_exec(v: &Var, r: &Expr, xs: &Exprs) -> (res: Exprs)
    ensures
        res == subst_exprs(*v, *r, *xs),
    decreases *xs,
{
    match xs {
        Exprs::Nil => Exprs::Nil,
        Exprs::Cons(x, rest) => Exprs::Cons(
            Box::new(subst(v, r, x)),
            Box::new(subst_exprs_exec(v, r, rest)),
        ),
    }
}

fn subst_fields_exec(v: &Var, r: &Expr, fs: &Fields) -> (res: Fields)
    ensures
        res == subst_fields(*v, *r, *fs),
    decreases *fs,
{
    match fs {
        Fields::Nil => Fields::Nil,
        Fields::Cons(k, x, rest) => Fields::Cons(
            chars_clone(k),
            Box::new(subst(v, r, x)),
            Box::new(subst_fields_exec(v, r, rest)),
        ),
    }
}

fn subst_alts_exec(v: &Var, r: &Expr, alts: &Alts) -> (res: Alts)
    ensures
        res == subst_alts(*v, *r, *alts),
    decreases *alts,
{
    match alts {
        Alts::Nil => Alts::Nil,
        Alts::Cons(k, x, rest) => Alts::Cons(
            chars_clone(k),
            subst_opt_exec(v, r, x),
            Box::new(subst_alts_exec(v, r, rest)),
        ),
    }
}

fn subst_texts_exec(v: &Var, r: &Expr, ts: &Texts) -> (res: Texts)
    ensures
        res == subst_texts(*v, *r, *ts),
    decreases *ts,
{
    match ts {
        Texts::Nil => Texts::Nil,
        Texts::Text(s, rest) => Texts::Text(
            chars_clone(s),
            Box::new(subst_texts_exec(v, r, rest)),
        ),
        Texts::Interp(e, rest) => Texts::Interp(
            Box::new(subst(v, r, e)),
            Box::new(subst_texts_exec(v, r, rest)),
        ),
    }
}

} // verus!

verus! {

/// Shift/substitute inverse law: shifting a term up past a fresh binder and
/// shifting back down reproduces the term, for every target variable and
/// every term whose indices are below the saturation bound.
pub proof fn lemma_shift_shift_inverse(v: Var, e: Expr)
    requires
        idx_ok_expr(e),
    ensures
        shift_expr(-1i64, v, shift_expr(1i64, v, e)) == e,
    decreases e,
{
    match e {
        Expr::Const(_) => {},
        Expr::Var(_) => {},
        Expr::Lam(x, t, b) => {
            lemma_shift_shift_inverse(v, *t);
            lemma_shift_shift_inverse(bump_var(v, x), *b);
        },
        Expr::Pi(x, t, b) => {
            lemma_shift_shift_inverse(v, *t);
            lemma_shift_shift_inverse(bump_var(v, x), *b);
        },
        Expr::App(f, a) => {
            lemma_shift_shift_inverse(v, *f);
            lemma_shift_shift_inverse(v, *a);
        },
        Expr::Let(x, t, r, b) => {
            lemma_shift_shift_inverse_opt(v, t);
            lemma_shift_shift_inverse(v, *r);
            lemma_shift_shift_inverse(bump_var(v, x), *b);
        },
        Expr::Annot(a, t) => {
            lemma_shift_shift_inverse(v, *a);
            lemma_shift_shift_inverse(v, *t);
        },
        Expr::Builtin(_) => {},
        Expr::BoolLit(_) => {},
        Expr::BoolIf(c, x, y) => {
            lemma_shift_shift_inverse(v, *c);
            lemma_shift_shift_inverse(v, *x);
            lemma_shift_shift_inverse(v, *y);
        },
        Expr::NaturalLit(_) => {},
        Expr::IntegerLit(_) => {},
        Expr::DoubleLit(_) => {},
        Expr::TextLit(ts) => {
            lemma_shift_shift_inverse_texts(v, ts);
        },
        Expr::BinOp(_, l, r) => {
            lemma_shift_shift_inverse(v, *l);
            lemma_shift_shift_inverse(v, *r);
        },
        Expr::EmptyListLit(t) => {
            lemma_shift_shift_inverse(v, *t);
        },
        Expr::NEListLit(xs) => {
            lemma_shift_shift_inverse_exprs(v, xs);
        },
        Expr::OptionalLit(t, xs) => {
            lemma_shift_shift_inverse(v, *t);
            lemma_shift_shift_inverse_exprs(v, xs);
        },
        Expr::SomeLit(x) => {
            lemma_shift_shift_inverse(v, *x);
        },
        Expr::Record(fs) => {
            lemma_shift_shift_inverse_fields(v, fs);
        },
        Expr::RecordLit(fs) => {
            lemma_shift_shift_inverse_fields(v, fs);
        },
        Expr::Union(alts) => {
            lemma_shift_shift_inverse_alts(v, alts);
        },
        Expr::UnionLit(_, x, alts) => {
            lemma_shift_shift_inverse(v, *x);
            lemma_shift_shift_inverse_alts(v, alts);
        },
        Expr::Field(r, _) => {
            lemma_shift_shift_inverse(v, *r);
        },
        Expr::Projection(r, _) => {
            lemma_shift_shift_inverse(v, *r);
        },
        Expr::Merge(h, u, t) => {
            lemma_shift_shift_inverse(v, *h);
            lemma_shift_shift_inverse(v, *u);
            lemma_shift_shift_inverse_opt(v, t);
        },
    }
}

proof fn lemma_shift_shift_inverse_opt(v: Var, o: Option<Box<Expr>>)
    requires
        idx_ok_opt(o),
    ensures
        shift_opt(-1i64, v, shift_opt(1i64, v, o)) == o,
    decreases o,
{
    match o {
        Option::None => {},
        Option::Some(e) => {
            lemma_shift_shift_inverse(v, *e);
        },
    }
}

proof fn lemma_shift_shift_inverse_exprs(v: Var, xs: Exprs)
    requires
        idx_ok_exprs(xs),
    ensures
        shift_exprs(-1i64, v, shift_exprs(1i64, v, xs)) == xs,
    decreases xs,
{
    match xs {
        Exprs::Nil => {},
        Exprs::Cons(x, rest) => {
            lemma_shift_shift_inverse(v, *x);
            lemma_shift_shift_inverse_exprs(v, *rest);
        },
    }
}

proof fn lemma_shift_shift_inverse_fields(v: Var, fs: Fields)
    requires
        idx_ok_fields(fs),
    ensures
        shift_fields(-1i64, v, shift_fields(1i64, v, fs)) == fs,
    decreases fs,
{
    match fs {
        Fields::Nil => {},
        Fields::Cons(_, x, rest) => {
            lemma_shift_shift_inverse(v, *x);
            lemma_shift_shift_inverse_fields(v, *rest);
        },
    }
}

proof fn lemma_shift_shift_inverse_alts(v: Var, alts: Alts)
    requires
        idx_ok_alts(alts),
    ensures
        shift_alts(-1i64, v, shift_alts(1i64, v, alts)) == alts,
    decreases alts,
{
    match alts {
        Alts::Nil => {},
        Alts::Cons(_, x, rest) => {
            lemma_shift_shift_inverse_opt(v, x);
            lemma_shift_shift_inverse_alts(v, *rest);
        },
    }
}

proof fn lemma_shift_shift_inverse_texts(v: Var, ts: Texts)
    requires
        idx_ok_texts(ts),
    ensures
        shift_texts(-1i64, v, shift_texts(1i64, v, ts)) == ts,
    decreases ts,
{
    match ts {
        Texts::Nil => {},
        Texts::Text(_, rest) => {
            lemma_shift_shift_inverse_texts(v, *rest);
        },
        Texts::Interp(e, rest) => {
            lemma_shift_shift_inverse(v, *e);
            lemma_shift_shift_inverse_texts(v, *rest);
        },
    }
}

/// Substitution-then-shift law: shifting a term up past a fresh binder and
/// substituting the now-unreferenced variable away reproduces the term, for
/// any replacement value.
pub proof fn lemma_subst_shift_inverse(v: Var, r: Expr, e: Expr)
    requires
        idx_ok_expr(e),
    ensures
        subst_expr(v, r, shift_expr(1i64, v, e)) == e,
    decreases e,
{
    match e {
        Expr::Const(_) => {},
        Expr::Var(_) => {},
        Expr::Lam(x, t, b) => {
            lemma_subst_shift_inverse(v, r, *t);
            lemma_subst_shift_inverse(
                bump_var(v, x),
                shift_expr(1i64, Var { name: x, idx: 0 }, r),
                *b,
            );
        },
        Expr::Pi(x, t, b) => {
            lemma_subst_shift_inverse(v, r, *t);
            lemma_subst_shift_inverse(
                bump_var(v, x),
                shift_expr(1i64, Var { name: x, idx: 0 }, r),
                *b,
            );
        },
        Expr::App(f, a) => {
            lemma_subst_shift_inverse(v, r, *f);
            lemma_subst_shift_inverse(v, r, *a);
        },
        Expr::Let(x, t, rr, b) => {
            lemma_subst_shift_inverse_opt(v, r, t);
            lemma_subst_shift_inverse(v, r, *rr);
            lemma_subst_shift_inverse(
                bump_var(v, x),
                shift_expr(1i64, Var { name: x, idx: 0 }, r),
                *b,
            );
        },
        Expr::Annot(a, t) => {
            lemma_subst_shift_inverse(v, r, *a);
            lemma_subst_shift_inverse(v, r, *t);
        },
        Expr::Builtin(_) => {},
        Expr::BoolLit(_) => {},
        Expr::BoolIf(c, x, y) => {
            lemma_subst_shift_inverse(v, r, *c);
            lemma_subst_shift_inverse(v, r, *x);
            lemma_subst_shift_inverse(v, r, *y);
        },
        Expr::NaturalLit(_) => {},
        Expr::IntegerLit(_) => {},
        Expr::DoubleLit(_) => {},
        Expr::TextLit(ts) => {
            lemma_subst_shift_inverse_texts(v, r, ts);
        },
        Expr::BinOp(_, l, rr) => {
            lemma_subst_shift_inverse(v, r, *l);
            lemma_subst_shift_inverse(v, r, *rr);
        },
        Expr::EmptyListLit(t) => {
            lemma_subst_shift_inverse(v, r, *t);
        },
        Expr::NEListLit(xs) => {
            lemma_subst_shift_inverse_exprs(v, r, xs);
        },
        Expr::OptionalLit(t, xs) => {
            lemma_subst_shift_inverse(v, r, *t);
            lemma_subst_shift_inverse_exprs(v, r, xs);
        },
        Expr::SomeLit(x) => {
            lemma_subst_shift_inverse(v, r, *x);
        },
        Expr::Record(fs) => {
            lemma_subst_shift_inverse_fields(v, r, fs);
        },
        Expr::RecordLit(fs) => {
            lemma_subst_shift_inverse_fields(v, r, fs);
        },
        Expr::Union(alts) => {
            lemma_subst_shift_inverse_alts(v, r, alts);
        },
        Expr::UnionLit(_, x, alts) => {
            lemma_subst_shift_inverse(v, r, *x);
            lemma_subst_shift_inverse_alts(v, r, alts);
        },
        Expr::Field(rr, _) => {
            lemma_subst_shift_inverse(v, r, *rr);
        },
        Expr::Projection(rr, _) => {
            lemma_subst_shift_inverse(v, r, *rr);
        },
        Expr::Merge(h, u, t) => {
            lemma_subst_shift_inverse(v, r, *h);
            lemma_subst_shift_inverse(v, r, *u);
            lemma_subst_shift_inverse_opt(v, r, t);
        },
    }
}

proof fn lemma_subst_shift_inverse_opt(v: Var, r: Expr, o: Option<Box<Expr>>)
    requires
        idx_ok_opt(o),
    ensures
        subst_opt(v, r, shift_opt(1i64, v, o)) == o,
    decreases o,
{
    match o {
        Option::None => {},
        Option::Some(e) => {
            lemma_subst_shift_inverse(v, r, *e);
        },
    }
}

proof fn lemma_subst_shift_inverse_exprs(v: Var, r: Expr, xs: Exprs)
    requires
        idx_ok_exprs(xs),
    ensures
        subst_exprs(v, r, shift_exprs(1i64, v, xs)) == xs,
    decreases xs,
{
    match xs {
        Exprs::Nil => {},
        Exprs::Cons(x, rest) => {
            lemma_subst_shift_inverse(v, r, *x);
            lemma_subst_shift_inverse_exprs(v, r, *rest);
        },
    }
}

proof fn lemma_subst_shift_inverse_fields(v: Var, r: Expr, fs: Fields)
    requires
        idx_ok_fields(fs),
    ensures
        subst_fields(v, r, shift_fields(1i64, v, fs)) == fs,
    decreases fs,
{
    match fs {
        Fields::Nil => {},
        Fields::Cons(_, x, rest) => {
            lemma_subst_shift_inverse(v, r, *x);
            lemma_subst_shift_inverse_fields(v, r, *rest);
        },
    }
}

proof fn lemma_subst_shift_inverse_alts(v: Var, r: Expr, alts: Alts)
    requires
        idx_ok_alts(alts),
    ensures
        subst_alts(v, r, shift_alts(1i64, v, alts)) == alts,
    decreases alts,
{
    match alts {
        Alts::Nil => {},
        Alts::Cons(_, x, rest) => {
            lemma_subst_shift_inverse_opt(v, r, x);
            lemma_subst_shift_inverse_alts(v, r, *rest);
        },
    }
}

proof fn lemma_subst_shift_inverse_texts(v: Var, r: Expr, ts: Texts)
    requires
        idx_ok_texts(ts),
    ensures
        subst_texts(v, r, shift_texts(1i64, v, ts)) == ts,
    decreases ts,
{
    match ts {
        Texts::Nil => {},
        Texts::Text(_, rest) => {
            lemma_subst_shift_inverse_texts(v, r, *rest);
        },
        Texts::Interp(e, rest) => {
            lemma_subst_shift_inverse(v, r, *e);
            lemma_subst_shift_inverse_texts(v, r, *rest);
        },
    }
}

} // verus!
