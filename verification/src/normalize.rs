//! The normalizer: reduces an expression to its normal form, performing
//! beta reduction, let elimination, the algebraic identities of the binary
//! operators, the reduction rules of the built-in eliminators, and
//! fold/build fusion.
//!
//! Normalization does not type-check the expression and never fails: an
//! ill-typed or stuck sub-term is left unevaluated.  Because beta reduction
//! alone need not terminate on ill-typed input, the evaluator carries a
//! recursion budget (`fuel`): every step that substitutes into a term costs
//! one unit, and a term whose budget runs out is returned as it stands.
//! The public entry point supplies a budget large enough for any input a
//! configuration language encounters in practice.

use vstd::prelude::*;

use crate::expr::{Alts, BinOp, Builtin, Chars, Expr, Exprs, Fields, Labels, Texts, Var};
use crate::subst::subst_expr;
use crate::expr::{chars_clone, chars_eq, clone_expr, clone_exprs, clone_labels, clone_var, expr_eq};

verus! {

/// Appends two character lists.
pub open spec fn chars_append(a: Chars, b: Chars) -> Chars
    decreases a,
{
    match a {
        Chars::Nil => b,
        Chars::Cons(c, rest) => Chars::Cons(c, Box::new(chars_append(*rest, b))),
    }
}

/// The decimal digit character for `d`, which must be below ten.
pub open spec fn digit_char(d: u64) -> char {
    if d == 0 {
        '0'
    } else if d == 1 {
        '1'
    } else if d == 2 {
        '2'
    } else if d == 3 {
        '3'
    } else if d == 4 {
        '4'
    } else if d == 5 {
        '5'
    } else if d == 6 {
        '6'
    } else if d == 7 {
        '7'
    } else if d == 8 {
        '8'
    } else {
        '9'
    }
}

/// The decimal spelling of a natural number.
pub open spec fn nat_digits(n: u64) -> Chars
    decreases n,
{
    if n < 10 {
        Chars::Cons(digit_char(n), Box::new(Chars::Nil))
    } else {
        chars_append(
            nat_digits(n / 10),
            Chars::Cons(digit_char(n % 10), Box::new(Chars::Nil)),
        )
    }
}

/// The number of elements of an expression list.
pub open spec fn exprs_len(xs: Exprs) -> nat
    decreases xs,
{
    match xs {
        Exprs::Nil => 0nat,
        Exprs::Cons(_, rest) => 1 + exprs_len(*rest),
    }
}

/// The `i`-th element of an expression list; a constant past the end.
pub open spec fn exprs_at(xs: Exprs, i: nat) -> Expr
    decreases xs,
{
    match xs {
        Exprs::Nil => Expr::Const(crate::expr::Const::Sort),
        Exprs::Cons(x, rest) => if i == 0 {
            *x
        } else {
            exprs_at(*rest, (i - 1) as nat)
        },
    }
}

/// Appends one expression at the end of a list.
pub open spec fn exprs_snoc(xs: Exprs, x: Expr) -> Exprs
    decreases xs,
{
    match xs {
        Exprs::Nil => Exprs::Cons(Box::new(x), Box::new(Exprs::Nil)),
        Exprs::Cons(y, rest) => Exprs::Cons(y, Box::new(exprs_snoc(*rest, x))),
    }
}

/// Concatenates two expression lists.
pub open spec fn exprs_append(a: Exprs, b: Exprs) -> Exprs
    decreases a,
{
    match a {
        Exprs::Nil => b,
        Exprs::Cons(x, rest) => Exprs::Cons(x, Box::new(exprs_append(*rest, b))),
    }
}

/// Reverses an expression list.
pub open spec fn exprs_reverse(xs: Exprs) -> Exprs
    decreases xs,
{
    match xs {
        Exprs::Nil => Exprs::Nil,
        Exprs::Cons(x, rest) => exprs_snoc(exprs_reverse(*rest), *x),
    }
}

/// The last element of a non-empty expression list.
pub open spec fn exprs_last(xs: Exprs) -> Expr
    decreases xs,
{
    match xs {
        Exprs::Nil => Expr::Const(crate::expr::Const::Sort),
        Exprs::Cons(x, rest) => if *rest is Nil {
            *x
        } else {
            exprs_last(*rest)
        },
    }
}

/// Saturates an unbounded count into a machine word.
pub open spec fn cap_u64(n: nat) -> u64 {
    if n > u64::MAX {
        u64::MAX
    } else {
        n as u64
    }
}

/// The head and argument list of an iterated application of a built-in
/// identifier, if `e` is one.
pub open spec fn spine_of(e: Expr) -> Option<(Builtin, Exprs)>
    decreases e,
{
    match e {
        Expr::Builtin(b) => Option::Some((b, Exprs::Nil)),
        Expr::App(f, a) => match spine_of(*f) {
            Option::Some((b, args)) => Option::Some((b, exprs_snoc(args, *a))),
            Option::None => Option::None,
        },
        _ => Option::None,
    }
}

/// Looks a label up in a field list.
pub open spec fn fields_get(fs: Fields, k: Chars) -> Option<Expr>
    decreases fs,
{
    match fs {
        Fields::Nil => Option::None,
        Fields::Cons(k2, v, rest) => if k2 == k {
            Option::Some(*v)
        } else {
            fields_get(*rest, k)
        },
    }
}

/// Whether a label occurs in a label list.
pub open spec fn labels_has(ls: Labels, k: Chars) -> bool
    decreases ls,
{
    match ls {
        Labels::Nil => false,
        Labels::Cons(k2, rest) => k2 == k || labels_has(*rest, k),
    }
}

/// Keeps only the fields whose label occurs in `ls`, in field order.
pub open spec fn fields_project(fs: Fields, ls: Labels) -> Fields
    decreases fs,
{
    match fs {
        Fields::Nil => Fields::Nil,
        Fields::Cons(k, v, rest) => if labels_has(ls, k) {
            Fields::Cons(k, v, Box::new(fields_project(*rest, ls)))
        } else {
            fields_project(*rest, ls)
        },
    }
}

/// Prepends a text chunk, merging with an adjacent chunk and dropping an
/// empty one, so no two fixed-text chunks stay adjacent.
pub open spec fn texts_cons_text(s: Chars, ts: Texts) -> Texts {
    if s is Nil {
        ts
    } else {
        match ts {
            Texts::Text(s2, rest) => Texts::Text(chars_append(s, s2), rest),
            _ => Texts::Text(s, Box::new(ts)),
        }
    }
}

/// Concatenates two chunk lists, merging at the boundary.
pub open spec fn texts_glue(a: Texts, b: Texts) -> Texts
    decreases a,
{
    match a {
        Texts::Nil => b,
        Texts::Text(s, rest) => texts_cons_text(s, texts_glue(*rest, b)),
        Texts::Interp(e, rest) => Texts::Interp(e, Box::new(texts_glue(*rest, b))),
    }
}

/// Canonicalizes a chunk list whose holes are already normalized: a hole
/// that is itself a text literal is spliced into the surrounding chunks,
/// adjacent fixed-text chunks are merged, and empty ones are dropped.
pub open spec fn texts_canon(ts: Texts) -> Texts
    decreases ts,
{
    match ts {
        Texts::Nil => Texts::Nil,
        Texts::Text(s, rest) => texts_cons_text(s, texts_canon(*rest)),
        Texts::Interp(e, rest) => match *e {
            Expr::TextLit(inner) => texts_glue(inner, texts_canon(*rest)),
            _ => Texts::Interp(e, Box::new(texts_canon(*rest))),
        },
    }
}

} // verus!

verus! {

/// The conventional name for a freshly introduced bound variable.
pub open spec fn name_x() -> Chars {
    Chars::Cons('x', Box::new(Chars::Nil))
}

/// The conventional name for the second bound variable of the list
/// constructor closure.
pub open spec fn name_xs() -> Chars {
    Chars::Cons('x', Box::new(Chars::Cons('s', Box::new(Chars::Nil))))
}

/// The label `index`.
pub open spec fn name_index() -> Chars {
    Chars::Cons(
        'i',
        Box::new(
            Chars::Cons(
                'n',
                Box::new(
                    Chars::Cons(
                        'd',
                        Box::new(Chars::Cons('e', Box::new(Chars::Cons('x', Box::new(Chars::Nil))))),
                    ),
                ),
            ),
        ),
    )
}

/// The label `value`.
pub open spec fn name_value() -> Chars {
    Chars::Cons(
        'v',
        Box::new(
            Chars::Cons(
                'a',
                Box::new(
                    Chars::Cons(
                        'l',
                        Box::new(Chars::Cons('u', Box::new(Chars::Cons('e', Box::new(Chars::Nil))))),
                    ),
                ),
            ),
        ),
    )
}

/// `\(x : t) -> \(xs : List t1) -> [x] # xs`, the eta-expansion of the
/// list constructor used when `List/build` is expanded; the element type is
/// shifted past the freshly introduced `x` to avoid accidental capture.
pub open spec fn list_cons_lam(t: Expr) -> Expr {
    Expr::Lam(
        name_x(),
        Box::new(t),
        Box::new(
            Expr::Lam(
                name_xs(),
                Box::new(
                    Expr::App(
                        Box::new(Expr::Builtin(Builtin::List)),
                        Box::new(crate::subst::shift_expr(1i64, Var { name: name_x(), idx: 0 }, t)),
                    ),
                ),
                Box::new(
                    Expr::BinOp(
                        BinOp::ListAppend,
                        Box::new(
                            Expr::NEListLit(
                                Exprs::Cons(
                                    Box::new(Expr::Var(Var { name: name_x(), idx: 0 })),
                                    Box::new(Exprs::Nil),
                                ),
                            ),
                        ),
                        Box::new(Expr::Var(Var { name: name_xs(), idx: 0 })),
                    ),
                ),
            ),
        ),
    )
}

/// `\(x : t) -> Some x`, the eta-expansion of the optional constructor used
/// when `Optional/build` is expanded.
pub open spec fn some_lam(t: Expr) -> Expr {
    Expr::Lam(
        name_x(),
        Box::new(t),
        Box::new(Expr::SomeLit(Box::new(Expr::Var(Var { name: name_x(), idx: 0 })))),
    )
}

/// `\(x : Natural) -> x + 1`, the successor function used when
/// `Natural/build` is expanded.
pub open spec fn succ_lam() -> Expr {
    Expr::Lam(
        name_x(),
        Box::new(Expr::Builtin(Builtin::Natural)),
        Box::new(
            Expr::BinOp(
                BinOp::NaturalPlus,
                Box::new(Expr::Var(Var { name: name_x(), idx: 0 })),
                Box::new(Expr::NaturalLit(1)),
            ),
        ),
    )
}

/// The right fold of `cons` over the elements of `xs`, ending in `nil`,
/// written as one application term.
pub open spec fn fold_right_term(cons: Expr, xs: Exprs, nil: Expr) -> Expr
    decreases xs,
{
    match xs {
        Exprs::Nil => nil,
        Exprs::Cons(x, rest) => Expr::App(
            Box::new(Expr::App(Box::new(cons), x)),
            Box::new(fold_right_term(cons, *rest, nil)),
        ),
    }
}

/// Wraps list elements as `{ index = i, value = x }` records, counting from
/// `i`.
pub open spec fn exprs_indexed(xs: Exprs, i: nat) -> Exprs
    decreases xs,
{
    match xs {
        Exprs::Nil => Exprs::Nil,
        Exprs::Cons(x, rest) => Exprs::Cons(
            Box::new(
                Expr::RecordLit(
                    Fields::Cons(
                        name_index(),
                        Box::new(Expr::NaturalLit(cap_u64(i))),
                        Box::new(Fields::Cons(name_value(), x, Box::new(Fields::Nil))),
                    ),
                ),
            ),
            Box::new(exprs_indexed(*rest, i + 1)),
        ),
    }
}

/// The record type `{ index : Natural, value : t }`.
pub open spec fn indexed_record_type(t: Expr) -> Expr {
    Expr::Record(
        Fields::Cons(
            name_index(),
            Box::new(Expr::Builtin(Builtin::Natural)),
            Box::new(Fields::Cons(name_value(), Box::new(t), Box::new(Fields::Nil))),
        ),
    )
}

/// A natural literal wrapped around `u64` as the machine's two's-complement
/// integer, the value `Natural/toInteger` yields.
pub open spec fn to_integer_value(n: u64) -> i64 {
    if n <= i64::MAX as u64 {
        n as i64
    } else {
        (n - 0x1_0000_0000_0000_0000) as i64
    }
}

/// One top-level reduction step of a binary operator whose operands are
/// already normalized: the absorbing and identity element cases first, then
/// arithmetic on two literals, else the operator stays as it is.
pub open spec fn binop_step(op: BinOp, l: Expr, r: Expr) -> Expr {
    let stuck = Expr::BinOp(op, Box::new(l), Box::new(r));
    match op {
        BinOp::BoolAnd => if l == Expr::BoolLit(true) {
            r
        } else if r == Expr::BoolLit(true) {
            l
        } else if l == Expr::BoolLit(false) || r == Expr::BoolLit(false) {
            Expr::BoolLit(false)
        } else {
            stuck
        },
        BinOp::BoolOr => if l == Expr::BoolLit(true) || r == Expr::BoolLit(true) {
            Expr::BoolLit(true)
        } else if l == Expr::BoolLit(false) {
            r
        } else if r == Expr::BoolLit(false) {
            l
        } else {
            stuck
        },
        BinOp::BoolEQ => if l == Expr::BoolLit(true) {
            r
        } else if r == Expr::BoolLit(true) {
            l
        } else if l == Expr::BoolLit(false) && r == Expr::BoolLit(false) {
            Expr::BoolLit(true)
        } else {
            stuck
        },
        BinOp::BoolNE => if l == Expr::BoolLit(false) {
            r
        } else if r == Expr::BoolLit(false) {
            l
        } else if l == Expr::BoolLit(true) && r == Expr::BoolLit(true) {
            Expr::BoolLit(false)
        } else {
            stuck
        },
        BinOp::NaturalPlus => if l == Expr::NaturalLit(0) {
            r
        } else if r == Expr::NaturalLit(0) {
            l
        } else {
            match (l, r) {
                (Expr::NaturalLit(a), Expr::NaturalLit(b)) => Expr::NaturalLit(
                    vstd::wrapping::u64_specs::wrapping_add(a, b),
                ),
                _ => stuck,
            }
        },
        BinOp::NaturalTimes => if l == Expr::NaturalLit(0) || r == Expr::NaturalLit(0) {
            Expr::NaturalLit(0)
        } else if l == Expr::NaturalLit(1) {
            r
        } else if r == Expr::NaturalLit(1) {
            l
        } else {
            match (l, r) {
                (Expr::NaturalLit(a), Expr::NaturalLit(b)) => Expr::NaturalLit(
                    vstd::wrapping::u64_specs::wrapping_mul(a, b),
                ),
                _ => stuck,
            }
        },
        BinOp::ListAppend => match (l, r) {
            (Expr::EmptyListLit(_), rr) => rr,
            (ll, Expr::EmptyListLit(_)) => ll,
            (Expr::NEListLit(a), Expr::NEListLit(b)) => Expr::NEListLit(exprs_append(a, b)),
            _ => stuck,
        },
        BinOp::TextAppend => if l == Expr::TextLit(Texts::Nil) {
            r
        } else if r == Expr::TextLit(Texts::Nil) {
            l
        } else {
            match (l, r) {
                (Expr::TextLit(a), Expr::TextLit(b)) => Expr::TextLit(texts_glue(a, b)),
                _ => stuck,
            }
        },
    }
}

} // verus!

verus! {

/// Reduces `e` to its normal form, spending at most `fuel` substitution
/// steps; a redex that the budget cannot cover is left as it stands.
pub open spec fn nrm(e: Expr, fuel: nat) -> Expr
    decreases fuel, 4int, e,
{
    match e {
        Expr::Const(_) => e,
        Expr::Var(_) => e,
        Expr::Lam(x, t, b) => Expr::Lam(
            x,
            Box::new(nrm(*t, fuel)),
            Box::new(nrm(*b, fuel)),
        ),
        Expr::Pi(x, t, b) => Expr::Pi(x, Box::new(nrm(*t, fuel)), Box::new(nrm(*b, fuel))),
        Expr::App(f, a) => {
            if *f is Lam {
                // The sole beta-reduction point: bind the normalized
                // argument in the unevaluated body.
                let a2 = nrm(*a, fuel);
                match *f {
                    Expr::Lam(x, _, b) => if fuel > 0 {
                        nrm(subst_expr(Var { name: x, idx: 0 }, a2, *b), (fuel - 1) as nat)
                    } else {
                        Expr::App(f, Box::new(a2))
                    },
                    _ => e,
                }
            } else {
                app_val(nrm(*f, fuel), nrm(*a, fuel), fuel)
            }
        },
        Expr::Let(x, _, r, b) => {
            // Normalize the bound value, then eliminate the binding: a let
            // never survives into the normal form.
            let r2 = nrm(*r, fuel);
            if fuel > 0 {
                nrm(subst_expr(Var { name: x, idx: 0 }, r2, *b), (fuel - 1) as nat)
            } else {
                Expr::Let(x, Option::None, Box::new(r2), b)
            }
        },
        Expr::Annot(a, _) => nrm(*a, fuel),
        Expr::Builtin(_) => e,
        Expr::BoolLit(_) => e,
        Expr::BoolIf(c, x, y) => {
            let c2 = nrm(*c, fuel);
            if c2 == Expr::BoolLit(true) {
                nrm(*x, fuel)
            } else if c2 == Expr::BoolLit(false) {
                nrm(*y, fuel)
            } else {
                let x2 = nrm(*x, fuel);
                let y2 = nrm(*y, fuel);
                if x2 == Expr::BoolLit(true) && y2 == Expr::BoolLit(false) {
                    c2
                } else if x2 == y2 {
                    x2
                } else {
                    Expr::BoolIf(Box::new(c2), Box::new(x2), Box::new(y2))
                }
            }
        },
        Expr::NaturalLit(_) => e,
        Expr::IntegerLit(_) => e,
        Expr::DoubleLit(_) => e,
        Expr::TextLit(ts) => Expr::TextLit(texts_canon(nrm_texts(ts, fuel))),
        Expr::BinOp(op, l, r) => binop_step(op, nrm(*l, fuel), nrm(*r, fuel)),
        Expr::EmptyListLit(t) => Expr::EmptyListLit(Box::new(nrm(*t, fuel))),
        Expr::NEListLit(xs) => Expr::NEListLit(nrm_exprs(xs, fuel)),
        Expr::OptionalLit(t, xs) => match xs {
            Exprs::Nil => Expr::App(
                Box::new(Expr::Builtin(Builtin::OptionalNone)),
                Box::new(nrm(*t, fuel)),
            ),
            Exprs::Cons(x, _) => Expr::SomeLit(Box::new(nrm(*x, fuel))),
        },
        Expr::SomeLit(x) => Expr::SomeLit(Box::new(nrm(*x, fuel))),
        Expr::Record(fs) => Expr::Record(nrm_fields(fs, fuel)),
        Expr::RecordLit(fs) => Expr::RecordLit(nrm_fields(fs, fuel)),
        Expr::Union(alts) => Expr::Union(nrm_alts(alts, fuel)),
        Expr::UnionLit(l, x, alts) => Expr::UnionLit(
            l,
            Box::new(nrm(*x, fuel)),
            nrm_alts(alts, fuel),
        ),
        Expr::Field(r, x) => {
            let r2 = nrm(*r, fuel);
            match r2 {
                Expr::RecordLit(fs) => match fields_get(fs, x) {
                    Option::Some(v) => v,
                    Option::None => Expr::Field(Box::new(Expr::RecordLit(fs)), x),
                },
                _ => Expr::Field(Box::new(r2), x),
            }
        },
        Expr::Projection(r, ls) => {
            let r2 = nrm(*r, fuel);
            if ls is Nil {
                Expr::RecordLit(Fields::Nil)
            } else {
                match r2 {
                    Expr::RecordLit(fs) => Expr::RecordLit(fields_project(fs, ls)),
                    _ => Expr::Projection(Box::new(r2), ls),
                }
            }
        },
        Expr::Merge(h, u, t) => {
            let h2 = nrm(*h, fuel);
            let u2 = nrm(*u, fuel);
            let t2 = nrm_opt(t, fuel);
            merge_step(h2, u2, t2, fuel)
        },
    }
}

/// [`nrm`] through an optional sub-term.
pub open spec fn nrm_opt(o: Option<Box<Expr>>, fuel: nat) -> Option<Box<Expr>>
    decreases fuel, 4int, o,
{
    match o {
        Option::None => Option::None,
        Option::Some(e) => Option::Some(Box::new(nrm(*e, fuel))),
    }
}

/// [`nrm`] through each element of an expression list.
pub open spec fn nrm_exprs(xs: Exprs, fuel: nat) -> Exprs
    decreases fuel, 4int, xs,
{
    match xs {
        Exprs::Nil => Exprs::Nil,
        Exprs::Cons(x, rest) => Exprs::Cons(
            Box::new(nrm(*x, fuel)),
            Box::new(nrm_exprs(*rest, fuel)),
        ),
    }
}

/// [`nrm`] through each field value.
pub open spec fn nrm_fields(fs: Fields, fuel: nat) -> Fields
    decreases fuel, 4int, fs,
{
    match fs {
        Fields::Nil => Fields::Nil,
        Fields::Cons(k, v, rest) => Fields::Cons(
            k,
            Box::new(nrm(*v, fuel)),
            Box::new(nrm_fields(*rest, fuel)),
        ),
    }
}

/// [`nrm`] through each alternative's payload type.
pub open spec fn nrm_alts(alts: Alts, fuel: nat) -> Alts
    decreases fuel, 4int, alts,
{
    match alts {
        Alts::Nil => Alts::Nil,
        Alts::Cons(k, x, rest) => Alts::Cons(
            k,
            nrm_opt(x, fuel),
            Box::new(nrm_alts(*rest, fuel)),
        ),
    }
}

/// [`nrm`] through each interpolation hole.
pub open spec fn nrm_texts(ts: Texts, fuel: nat) -> Texts
    decreases fuel, 4int, ts,
{
    match ts {
        Texts::Nil => Texts::Nil,
        Texts::Text(s, rest) => Texts::Text(s, Box::new(nrm_texts(*rest, fuel))),
        Texts::Interp(e, rest) => Texts::Interp(
            Box::new(nrm(*e, fuel)),
            Box::new(nrm_texts(*rest, fuel)),
        ),
    }
}

/// Applies an already-normalized function value to an already-normalized
/// argument: beta-reduce a lambda, turn a union constructor into a union
/// literal, try the reduction rule of an applied built-in, or stay stuck.
pub open spec fn app_val(f: Expr, a: Expr, fuel: nat) -> Expr
    decreases fuel, 3int, f,
{
    match f {
        Expr::Lam(x, _, b) => if fuel > 0 {
            nrm(subst_expr(Var { name: x, idx: 0 }, a, *b), (fuel - 1) as nat)
        } else {
            Expr::App(Box::new(f), Box::new(a))
        },
        Expr::Field(u, l) => match *u {
            Expr::Union(alts) => Expr::UnionLit(l, Box::new(a), alts),
            _ => Expr::App(Box::new(Expr::Field(u, l)), Box::new(a)),
        },
        _ => match spine_of(f) {
            Option::Some((b, args)) => match apply_builtin(b, exprs_snoc(args, a), fuel) {
                Option::Some(res) => res,
                Option::None => Expr::App(Box::new(f), Box::new(a)),
            },
            Option::None => Expr::App(Box::new(f), Box::new(a)),
        },
    }
}

/// The result of a pattern match whose scrutinee and handler record are
/// already normalized, or the stuck merge node.
pub open spec fn merge_step(h: Expr, u: Expr, t: Option<Box<Expr>>, fuel: nat) -> Expr
    decreases fuel, 3int, h,
{
    let stuck = Expr::Merge(Box::new(h), Box::new(u), t);
    match h {
        Expr::RecordLit(handlers) => match u {
            Expr::Field(ub, l) => match *ub {
                Expr::Union(_) => match fields_get(handlers, l) {
                    Option::Some(hl) => hl,
                    Option::None => stuck,
                },
                _ => stuck,
            },
            Expr::UnionLit(l, v, _) => match fields_get(handlers, l) {
                Option::Some(hl) => if fuel > 0 {
                    nrm(Expr::App(Box::new(hl), v), (fuel - 1) as nat)
                } else {
                    stuck
                },
                Option::None => stuck,
            },
            _ => stuck,
        },
        _ => stuck,
    }
}

/// The reduction rule of built-in `b` applied to the normalized argument
/// list `args`, or `None` when no rule fires (too few arguments, or an
/// argument whose shape the rule cannot consume).
pub open spec fn apply_builtin(b: Builtin, args: Exprs, fuel: nat) -> Option<Expr>
    decreases fuel, 2int, args,
{
    let n = exprs_len(args);
    match b {
        Builtin::NaturalIsZero => if n == 1 {
            match exprs_at(args, 0) {
                Expr::NaturalLit(m) => Option::Some(Expr::BoolLit(m == 0)),
                _ => Option::None,
            }
        } else {
            Option::None
        },
        Builtin::NaturalEven => if n == 1 {
            match exprs_at(args, 0) {
                Expr::NaturalLit(m) => Option::Some(Expr::BoolLit(m % 2 == 0)),
                _ => Option::None,
            }
        } else {
            Option::None
        },
        Builtin::NaturalOdd => if n == 1 {
            match exprs_at(args, 0) {
                Expr::NaturalLit(m) => Option::Some(Expr::BoolLit(m % 2 != 0)),
                _ => Option::None,
            }
        } else {
            Option::None
        },
        Builtin::NaturalToInteger => if n == 1 {
            match exprs_at(args, 0) {
                Expr::NaturalLit(m) => Option::Some(Expr::IntegerLit(to_integer_value(m))),
                _ => Option::None,
            }
        } else {
            Option::None
        },
        Builtin::NaturalShow => if n == 1 {
            match exprs_at(args, 0) {
                Expr::NaturalLit(m) => Option::Some(
                    Expr::TextLit(Texts::Text(nat_digits(m), Box::new(Texts::Nil))),
                ),
                _ => Option::None,
            }
        } else {
            Option::None
        },
        Builtin::ListLength => if n == 2 {
            match exprs_at(args, 1) {
                Expr::EmptyListLit(_) => Option::Some(Expr::NaturalLit(0)),
                Expr::NEListLit(xs) => Option::Some(Expr::NaturalLit(cap_u64(exprs_len(xs)))),
                _ => Option::None,
            }
        } else {
            Option::None
        },
        Builtin::ListHead => if n == 2 {
            match exprs_at(args, 1) {
                Expr::EmptyListLit(t) => Option::Some(
                    Expr::App(Box::new(Expr::Builtin(Builtin::OptionalNone)), t),
                ),
                Expr::NEListLit(xs) => match xs {
                    Exprs::Cons(x, _) => Option::Some(Expr::SomeLit(x)),
                    Exprs::Nil => Option::None,
                },
                _ => Option::None,
            }
        } else {
            Option::None
        },
        Builtin::ListLast => if n == 2 {
            match exprs_at(args, 1) {
                Expr::EmptyListLit(t) => Option::Some(
                    Expr::App(Box::new(Expr::Builtin(Builtin::OptionalNone)), t),
                ),
                Expr::NEListLit(xs) => if xs is Cons {
                    Option::Some(Expr::SomeLit(Box::new(exprs_last(xs))))
                } else {
                    Option::None
                },
                _ => Option::None,
            }
        } else {
            Option::None
        },
        Builtin::ListReverse => if n == 2 {
            match exprs_at(args, 1) {
                Expr::EmptyListLit(t) => Option::Some(Expr::EmptyListLit(t)),
                Expr::NEListLit(xs) => Option::Some(Expr::NEListLit(exprs_reverse(xs))),
                _ => Option::None,
            }
        } else {
            Option::None
        },
        Builtin::ListIndexed => if n == 2 {
            match exprs_at(args, 1) {
                Expr::EmptyListLit(t) => Option::Some(
                    Expr::EmptyListLit(Box::new(indexed_record_type(*t))),
                ),
                Expr::NEListLit(xs) => Option::Some(Expr::NEListLit(exprs_indexed(xs, 0))),
                _ => Option::None,
            }
        } else {
            Option::None
        },
        Builtin::ListBuild => if n == 2 {
            apply_list_build(exprs_at(args, 0), exprs_at(args, 1), fuel)
        } else {
            Option::None
        },
        Builtin::ListFold => if n == 2 {
            apply_list_fold_fusion(exprs_at(args, 1))
        } else if n == 5 {
            apply_list_fold_eval(exprs_at(args, 1), exprs_at(args, 3), exprs_at(args, 4), fuel)
        } else {
            Option::None
        },
        Builtin::OptionalBuild => if n == 2 {
            apply_optional_build(exprs_at(args, 0), exprs_at(args, 1), fuel)
        } else {
            Option::None
        },
        Builtin::OptionalFold => if n == 2 {
            apply_optional_fold_fusion(exprs_at(args, 1))
        } else if n == 5 {
            apply_optional_fold_eval(exprs_at(args, 1), exprs_at(args, 3), exprs_at(args, 4), fuel)
        } else {
            Option::None
        },
        Builtin::NaturalBuild => if n == 1 {
            apply_natural_build(exprs_at(args, 0), fuel)
        } else {
            Option::None
        },
        Builtin::NaturalFold => if n == 1 {
            apply_natural_fold_fusion(exprs_at(args, 0))
        } else if n == 4 {
            apply_natural_fold_eval(
                exprs_at(args, 0),
                exprs_at(args, 1),
                exprs_at(args, 2),
                exprs_at(args, 3),
                fuel,
            )
        } else {
            Option::None
        },
        _ => Option::None,
    }
}

/// The rule of `List/fold` applied to a concrete list, cons and nil: the
/// right fold written as one application term and normalized.
#[verifier::opaque]
pub open spec fn apply_list_fold_eval(l: Expr, cons: Expr, nil: Expr, fuel: nat) -> Option<Expr>
    decreases fuel, 1int, l,
{
    match l {
        Expr::EmptyListLit(_) => Option::Some(nil),
        Expr::NEListLit(xs) => if fuel > 0 {
            Option::Some(nrm(fold_right_term(cons, xs, nil), (fuel - 1) as nat))
        } else {
            Option::None
        },
        _ => Option::None,
    }
}

/// The rule of `Optional/build` at two arguments: fusion with an applied
/// `Optional/fold`, else the Church-encoding expansion.
pub open spec fn apply_optional_build(t: Expr, g: Expr, fuel: nat) -> Option<Expr>
    decreases fuel, 1int, g,
{
    match spine_of(g) {
        Option::Some((b2, fargs)) => if b2 == Builtin::OptionalFold && exprs_len(fargs) >= 2 {
            // fold/build fusion
            Option::Some(exprs_at(fargs, 1))
        } else {
            optional_build_expand(t, g, fuel)
        },
        Option::None => optional_build_expand(t, g, fuel),
    }
}

/// The fusion rule of `Optional/fold` at two arguments.
pub open spec fn apply_optional_fold_fusion(g: Expr) -> Option<Expr> {
    match spine_of(g) {
        Option::Some((b2, bargs)) => if b2 == Builtin::OptionalBuild && exprs_len(bargs) >= 2 {
            // fold/build fusion
            Option::Some(exprs_at(bargs, 1))
        } else {
            Option::None
        },
        Option::None => Option::None,
    }
}

/// The rule of `Optional/fold` applied to a concrete optional.
#[verifier::opaque]
pub open spec fn apply_optional_fold_eval(o: Expr, just: Expr, nothing: Expr, fuel: nat) -> Option<
    Expr,
>
    decreases fuel, 1int, o,
{
    match o {
        Expr::App(f0, _) => if *f0 == Expr::Builtin(Builtin::OptionalNone) {
            Option::Some(nothing)
        } else {
            Option::None
        },
        Expr::SomeLit(x) => if fuel > 0 {
            Option::Some(nrm(Expr::App(Box::new(just), x), (fuel - 1) as nat))
        } else {
            Option::None
        },
        _ => Option::None,
    }
}

/// The rule of `Natural/build` at one argument: fusion with an applied
/// `Natural/fold`, else the Church-encoding expansion.
pub open spec fn apply_natural_build(g: Expr, fuel: nat) -> Option<Expr>
    decreases fuel, 1int, g,
{
    match spine_of(g) {
        Option::Some((b2, fargs)) => if b2 == Builtin::NaturalFold && exprs_len(fargs) >= 1 {
            // fold/build fusion
            Option::Some(exprs_at(fargs, 0))
        } else {
            natural_build_expand(g, fuel)
        },
        Option::None => natural_build_expand(g, fuel),
    }
}

/// The fusion rule of `Natural/fold` at one argument.
pub open spec fn apply_natural_fold_fusion(g: Expr) -> Option<Expr> {
    match spine_of(g) {
        Option::Some((b2, bargs)) => if b2 == Builtin::NaturalBuild && exprs_len(bargs) >= 1 {
            // fold/build fusion
            Option::Some(exprs_at(bargs, 0))
        } else {
            Option::None
        },
        Option::None => Option::None,
    }
}

/// The rule of `Natural/fold` applied to a literal: zero yields the base
/// case, a successor applies `succ` to the fold of the predecessor.
#[verifier::opaque]
pub open spec fn apply_natural_fold_eval(
    m0: Expr,
    t: Expr,
    succ: Expr,
    zero: Expr,
    fuel: nat,
) -> Option<Expr>
    decreases fuel, 1int, m0,
{
    match m0 {
        Expr::NaturalLit(m) => if m == 0 {
            Option::Some(zero)
        } else if fuel > 0 {
            Option::Some(
                nrm(
                    Expr::App(
                        Box::new(succ),
                        Box::new(
                            Expr::App(
                                Box::new(
                                    Expr::App(
                                        Box::new(
                                            Expr::App(
                                                Box::new(
                                                    Expr::App(
                                                        Box::new(Expr::Builtin(Builtin::NaturalFold)),
                                                        Box::new(Expr::NaturalLit((m - 1) as u64)),
                                                    ),
                                                ),
                                                Box::new(t),
                                            ),
                                        ),
                                        Box::new(succ),
                                    ),
                                ),
                                Box::new(zero),
                            ),
                        ),
                    ),
                    (fuel - 1) as nat,
                ),
            )
        } else {
            Option::None
        },
        _ => Option::None,
    }
}

/// The rule of `List/build` applied to its two arguments: fold/build
/// fusion when the builder argument is an applied `List/fold`, else the
/// Church-encoding expansion.
pub open spec fn apply_list_build(t: Expr, g: Expr, fuel: nat) -> Option<Expr>
    decreases fuel, 1int, g,
{
    match spine_of(g) {
        Option::Some((b2, fargs)) => if b2 == Builtin::ListFold && exprs_len(fargs) >= 2 {
            // fold/build fusion
            Option::Some(exprs_at(fargs, 1))
        } else {
            list_build_expand(t, g, fuel)
        },
        Option::None => list_build_expand(t, g, fuel),
    }
}

/// The fusion rule of `List/fold` at two arguments: consuming an applied
/// `List/build` short-circuits to the builder's subject.
pub open spec fn apply_list_fold_fusion(g: Expr) -> Option<Expr> {
    match spine_of(g) {
        Option::Some((b2, bargs)) => if b2 == Builtin::ListBuild && exprs_len(bargs) >= 2 {
            // fold/build fusion
            Option::Some(exprs_at(bargs, 1))
        } else {
            Option::None
        },
        Option::None => Option::None,
    }
}

/// The Church-encoding expansion of `List/build t g`: apply the builder to
/// the list type, the cons closure and the empty list.
#[verifier::opaque]
pub open spec fn list_build_expand(t: Expr, g: Expr, fuel: nat) -> Option<Expr>
    decreases fuel, 0int, g,
{
    if fuel > 0 {
        Option::Some(
            nrm(
                Expr::App(
                    Box::new(
                        Expr::App(
                            Box::new(
                                Expr::App(
                                    Box::new(g),
                                    Box::new(
                                        Expr::App(
                                            Box::new(Expr::Builtin(Builtin::List)),
                                            Box::new(t),
                                        ),
                                    ),
                                ),
                            ),
                            Box::new(list_cons_lam(t)),
                        ),
                    ),
                    Box::new(Expr::EmptyListLit(Box::new(t))),
                ),
                (fuel - 1) as nat,
            ),
        )
    } else {
        Option::None
    }
}

/// The Church-encoding expansion of `Optional/build t g`.
#[verifier::opaque]
pub open spec fn optional_build_expand(t: Expr, g: Expr, fuel: nat) -> Option<Expr>
    decreases fuel, 0int, g,
{
    if fuel > 0 {
        Option::Some(
            nrm(
                Expr::App(
                    Box::new(
                        Expr::App(
                            Box::new(
                                Expr::App(
                                    Box::new(g),
                                    Box::new(
                                        Expr::App(
                                            Box::new(Expr::Builtin(Builtin::Optional)),
                                            Box::new(t),
                                        ),
                                    ),
                                ),
                            ),
                            Box::new(some_lam(t)),
                        ),
                    ),
                    Box::new(
                        Expr::App(
                            Box::new(Expr::Builtin(Builtin::OptionalNone)),
                            Box::new(t),
                        ),
                    ),
                ),
                (fuel - 1) as nat,
            ),
        )
    } else {
        Option::None
    }
}

/// The Church-encoding expansion of `Natural/build g`.
#[verifier::opaque]
pub open spec fn natural_build_expand(g: Expr, fuel: nat) -> Option<Expr>
    decreases fuel, 0int, g,
{
    if fuel > 0 {
        Option::Some(
            nrm(
                Expr::App(
                    Box::new(
                        Expr::App(
                            Box::new(
                                Expr::App(Box::new(g), Box::new(Expr::Builtin(Builtin::Natural))),
                            ),
                            Box::new(succ_lam()),
                        ),
                    ),
                    Box::new(Expr::NaturalLit(0)),
                ),
                (fuel - 1) as nat,
            ),
        )
    } else {
        Option::None
    }
}

} // verus!

verus! {

/// Appends two character lists.
pub fn chars_append_exec(a: Chars, b: Chars) -> (res: Chars)
    ensures
        res == chars_append(a, b),
    decreases a,
{
    match a {
        Chars::Nil => b,
        Chars::Cons(c, rest) => Chars::Cons(c, Box::new(chars_append_exec(*rest, b))),
    }
}

fn digit_char_exec(d: u64) -> (res: char)
    ensures
        res == digit_char(d),
{
    if d == 0 {
        '0'
    } else if d == 1 {
        '1'
    } else if d == 2 {
        '2'
    } else if d == 3 {
        '3'
    } else if d == 4 {
        '4'
    } else if d == 5 {
        '5'
    } else if d == 6 {
        '6'
    } else if d == 7 {
        '7'
    } else if d == 8 {
        '8'
    } else {
        '9'
    }
}

/// Spells a natural number in decimal.
pub fn nat_digits_exec(n: u64) -> (res: Chars)
    ensures
        res == nat_digits(n),
    decreases n,
{
    if n < 10 {
        Chars::Cons(digit_char_exec(n), Box::new(Chars::Nil))
    } else {
        chars_append_exec(
            nat_digits_exec(n / 10),
            Chars::Cons(digit_char_exec(n % 10), Box::new(Chars::Nil)),
        )
    }
}

/// Counts the elements of an expression list, saturating at `u64::MAX`.
pub fn exprs_len_exec(xs: &Exprs) -> (res: u64)
    ensures
        res == cap_u64(exprs_len(*xs)),
    decreases *xs,
{
    match xs {
        Exprs::Nil => 0,
        Exprs::Cons(_, rest) => {
            let m = exprs_len_exec(rest);
            if m < u64::MAX {
                m + 1
            } else {
                u64::MAX
            }
        },
    }
}

/// Borrows the `i`-th element of an expression list.
fn exprs_at_ref(xs: &Exprs, i: u64) -> (res: &Expr)
    requires
        (i as nat) < exprs_len(*xs),
    ensures
        *res == exprs_at(*xs, i as nat),
    decreases *xs,
{
    match xs {
        Exprs::Nil => unreached(),
        Exprs::Cons(x, rest) => if i == 0 {
            x
        } else {
            exprs_at_ref(rest, i - 1)
        },
    }
}

fn exprs_snoc_exec(xs: Exprs, x: Expr) -> (res: Exprs)
    ensures
        res == exprs_snoc(xs, x),
    decreases xs,
{
    match xs {
        Exprs::Nil => Exprs::Cons(Box::new(x), Box::new(Exprs::Nil)),
        Exprs::Cons(y, rest) => Exprs::Cons(y, Box::new(exprs_snoc_exec(*rest, x))),
    }
}

fn exprs_append_exec(a: Exprs, b: Exprs) -> (res: Exprs)
    ensures
        res == exprs_append(a, b),
    decreases a,
{
    match a {
        Exprs::Nil => b,
        Exprs::Cons(x, rest) => Exprs::Cons(x, Box::new(exprs_append_exec(*rest, b))),
    }
}

fn exprs_reverse_exec(xs: Exprs) -> (res: Exprs)
    ensures
        res == exprs_reverse(xs),
    decreases xs,
{
    match xs {
        Exprs::Nil => Exprs::Nil,
        Exprs::Cons(x, rest) => exprs_snoc_exec(exprs_reverse_exec(*rest), *x),
    }
}

fn exprs_last_ref(xs: &Exprs) -> (res: &Expr)
    requires
        *xs is Cons,
    ensures
        *res == exprs_last(*xs),
    decreases *xs,
{
    match xs {
        Exprs::Nil => unreached(),
        Exprs::Cons(x, rest) => match &**rest {
            Exprs::Nil => x,
            Exprs::Cons(_, _) => exprs_last_ref(rest),
        },
    }
}

fn exprs_indexed_exec(xs: Exprs, i: u64) -> (res: Exprs)
    requires
        i as nat == cap_u64(i as nat),
    ensures
        res == exprs_indexed(xs, i as nat),
    decreases xs,
{
    match xs {
        Exprs::Nil => Exprs::Nil,
        Exprs::Cons(x, rest) => {
            let j = if i < u64::MAX {
                i + 1
            } else {
                u64::MAX
            };
            let entry = Expr::RecordLit(
                Fields::Cons(
                    name_index_exec(),
                    Box::new(Expr::NaturalLit(i)),
                    Box::new(Fields::Cons(name_value_exec(), x, Box::new(Fields::Nil))),
                ),
            );
            let rest2 = exprs_indexed_exec(*rest, j);
            proof {
                if i < u64::MAX {
                    assert(exprs_indexed(*rest, (i + 1) as nat) == exprs_indexed(
                        *rest,
                        i as nat + 1,
                    ));
                } else {
                    lemma_exprs_indexed_saturated(*rest, i as nat + 1);
                }
            }
            Exprs::Cons(Box::new(entry), Box::new(rest2))
        },
    }
}

/// Past the largest machine index every entry is stamped with the same
/// saturated index.
proof fn lemma_exprs_indexed_saturated(xs: Exprs, i: nat)
    requires
        i >= u64::MAX,
    ensures
        exprs_indexed(xs, i) == exprs_indexed(xs, u64::MAX as nat),
    decreases xs,
{
    match xs {
        Exprs::Nil => {},
        Exprs::Cons(_, rest) => {
            lemma_exprs_indexed_saturated(*rest, i + 1);
            lemma_exprs_indexed_saturated(*rest, u64::MAX as nat + 1);
        },
    }
}

fn name_x_exec() -> (res: Chars)
    ensures
        res == name_x(),
{
    Chars::Cons('x', Box::new(Chars::Nil))
}

fn name_xs_exec() -> (res: Chars)
    ensures
        res == name_xs(),
{
    Chars::Cons('x', Box::new(Chars::Cons('s', Box::new(Chars::Nil))))
}

fn name_index_exec() -> (res: Chars)
    ensures
        res == name_index(),
{
    Chars::Cons(
        'i',
        Box::new(
            Chars::Cons(
                'n',
                Box::new(
                    Chars::Cons(
                        'd',
                        Box::new(Chars::Cons('e', Box::new(Chars::Cons('x', Box::new(Chars::Nil))))),
                    ),
                ),
            ),
        ),
    )
}

fn name_value_exec() -> (res: Chars)
    ensures
        res == name_value(),
{
    Chars::Cons(
        'v',
        Box::new(
            Chars::Cons(
                'a',
                Box::new(
                    Chars::Cons(
                        'l',
                        Box::new(Chars::Cons('u', Box::new(Chars::Cons('e', Box::new(Chars::Nil))))),
                    ),
                ),
            ),
        ),
    )
}

/// Looks a label up in a field list, cloning the value found.
pub fn fields_get_exec(fs: &Fields, k: &Chars) -> (res: Option<Expr>)
    ensures
        res == fields_get(*fs, *k),
    decreases *fs,
{
    match fs {
        Fields::Nil => Option::None,
        Fields::Cons(k2, v, rest) => if chars_eq(k2, k) {
            Option::Some(clone_expr(v))
        } else {
            fields_get_exec(rest, k)
        },
    }
}

fn labels_has_exec(ls: &Labels, k: &Chars) -> (res: bool)
    ensures
        res == labels_has(*ls, *k),
    decreases *ls,
{
    match ls {
        Labels::Nil => false,
        Labels::Cons(k2, rest) => chars_eq(k2, k) || labels_has_exec(rest, k),
    }
}

/// Keeps only the fields whose label occurs in `ls`; see
/// [`fields_project`].
pub fn fields_project_pub(fs: Fields, ls: &Labels) -> (res: Fields)
    ensures
        res == fields_project(fs, *ls),
{
    fields_project_exec(fs, ls)
}

fn fields_project_exec(fs: Fields, ls: &Labels) -> (res: Fields)
    ensures
        res == fields_project(fs, *ls),
    decreases fs,
{
    match fs {
        Fields::Nil => Fields::Nil,
        Fields::Cons(k, v, rest) => if labels_has_exec(ls, &k) {
            Fields::Cons(k, v, Box::new(fields_project_exec(*rest, ls)))
        } else {
            fields_project_exec(*rest, ls)
        },
    }
}

fn texts_cons_text_exec(s: Chars, ts: Texts) -> (res: Texts)
    ensures
        res == texts_cons_text(s, ts),
{
    match s {
        Chars::Nil => ts,
        _ => match ts {
            Texts::Text(s2, rest) => Texts::Text(chars_append_exec(s, s2), rest),
            _ => Texts::Text(s, Box::new(ts)),
        },
    }
}

fn texts_glue_exec(a: Texts, b: Texts) -> (res: Texts)
    ensures
        res == texts_glue(a, b),
    decreases a,
{
    match a {
        Texts::Nil => b,
        Texts::Text(s, rest) => texts_cons_text_exec(s, texts_glue_exec(*rest, b)),
        Texts::Interp(e, rest) => Texts::Interp(e, Box::new(texts_glue_exec(*rest, b))),
    }
}

fn texts_canon_exec(ts: Texts) -> (res: Texts)
    ensures
        res == texts_canon(ts),
    decreases ts,
{
    match ts {
        Texts::Nil => Texts::Nil,
        Texts::Text(s, rest) => texts_cons_text_exec(s, texts_canon_exec(*rest)),
        Texts::Interp(e, rest) => match *e {
            Expr::TextLit(inner) => texts_glue_exec(inner, texts_canon_exec(*rest)),
            other => Texts::Interp(Box::new(other), Box::new(texts_canon_exec(*rest))),
        },
    }
}

fn to_integer_exec(n: u64) -> (res: i64)
    ensures
        res == to_integer_value(n),
{
    if n <= 0x7FFF_FFFF_FFFF_FFFFu64 {
        n as i64
    } else {
        i64::MIN + ((n - 0x8000_0000_0000_0000u64) as i64)
    }
}

fn fold_right_term_exec(cons: &Expr, xs: Exprs, nil: Expr) -> (res: Expr)
    ensures
        res == fold_right_term(*cons, xs, nil),
    decreases xs,
{
    match xs {
        Exprs::Nil => nil,
        Exprs::Cons(x, rest) => Expr::App(
            Box::new(Expr::App(Box::new(clone_expr(cons)), x)),
            Box::new(fold_right_term_exec(cons, *rest, nil)),
        ),
    }
}

fn list_cons_lam_exec(t: &Expr) -> (res: Expr)
    ensures
        res == list_cons_lam(*t),
{
    let xv = Var { name: name_x_exec(), idx: 0 };
    let shifted = crate::subst::shift(1, &xv, t);
    Expr::Lam(
        name_x_exec(),
        Box::new(clone_expr(t)),
        Box::new(
            Expr::Lam(
                name_xs_exec(),
                Box::new(
                    Expr::App(Box::new(Expr::Builtin(Builtin::List)), Box::new(shifted)),
                ),
                Box::new(
                    Expr::BinOp(
                        BinOp::ListAppend,
                        Box::new(
                            Expr::NEListLit(
                                Exprs::Cons(
                                    Box::new(Expr::Var(Var { name: name_x_exec(), idx: 0 })),
                                    Box::new(Exprs::Nil),
                                ),
                            ),
                        ),
                        Box::new(Expr::Var(Var { name: name_xs_exec(), idx: 0 })),
                    ),
                ),
            ),
        ),
    )
}

fn some_lam_exec(t: Expr) -> (res: Expr)
    ensures
        res == some_lam(t),
{
    Expr::Lam(
        name_x_exec(),
        Box::new(t),
        Box::new(Expr::SomeLit(Box::new(Expr::Var(Var { name: name_x_exec(), idx: 0 })))),
    )
}

fn succ_lam_exec() -> (res: Expr)
    ensures
        res == succ_lam(),
{
    Expr::Lam(
        name_x_exec(),
        Box::new(Expr::Builtin(Builtin::Natural)),
        Box::new(
            Expr::BinOp(
                BinOp::NaturalPlus,
                Box::new(Expr::Var(Var { name: name_x_exec(), idx: 0 })),
                Box::new(Expr::NaturalLit(1)),
            ),
        ),
    )
}

/// The record type `{ index : Natural, value : t }` as a built value.
pub fn indexed_record_type_pub(t: Expr) -> (res: Expr)
    ensures
        res == indexed_record_type(t),
{
    indexed_record_type_exec(t)
}

fn indexed_record_type_exec(t: Expr) -> (res: Expr)
    ensures
        res == indexed_record_type(t),
{
    Expr::Record(
        Fields::Cons(
            name_index_exec(),
            Box::new(Expr::Builtin(Builtin::Natural)),
            Box::new(Fields::Cons(name_value_exec(), Box::new(t), Box::new(Fields::Nil))),
        ),
    )
}

/// Extracts the built-in head and the accumulated arguments of an iterated
/// application, if `e` is one.
fn spine_of_exec(e: &Expr) -> (res: Option<(Builtin, Exprs)>)
    ensures
        res == spine_of(*e),
    decreases *e,
{
    match e {
        Expr::Builtin(b) => Option::Some((*b, Exprs::Nil)),
        Expr::App(f, a) => match spine_of_exec(f) {
            Option::Some((b, args)) => Option::Some(
                (b, exprs_snoc_exec(args, clone_expr(a))),
            ),
            Option::None => Option::None,
        },
        _ => Option::None,
    }
}

} // verus!

verus! {

fn is_bool_lit(e: &Expr, b: bool) -> (res: bool)
    ensures
        res == (*e == Expr::BoolLit(b)),
{
    match e {
        Expr::BoolLit(x) => *x == b,
        _ => false,
    }
}

fn is_nat_lit(e: &Expr, n: u64) -> (res: bool)
    ensures
        res == (*e == Expr::NaturalLit(n)),
{
    match e {
        Expr::NaturalLit(x) => *x == n,
        _ => false,
    }
}

fn is_empty_text(e: &Expr) -> (res: bool)
    ensures
        res == (*e == Expr::TextLit(Texts::Nil)),
{
    match e {
        Expr::TextLit(Texts::Nil) => true,
        _ => false,
    }
}

/// One top-level reduction step of a binary operator on normalized
/// operands; see [`binop_step`].
pub fn binop_step_exec(op: BinOp, l: Expr, r: Expr) -> (res: Expr)
    ensures
        res == binop_step(op, l, r),
{
    match op {
        BinOp::BoolAnd => if is_bool_lit(&l, true) {
            r
        } else if is_bool_lit(&r, true) {
            l
        } else if is_bool_lit(&l, false) || is_bool_lit(&r, false) {
            Expr::BoolLit(false)
        } else {
            Expr::BinOp(op, Box::new(l), Box::new(r))
        },
        BinOp::BoolOr => if is_bool_lit(&l, true) || is_bool_lit(&r, true) {
            Expr::BoolLit(true)
        } else if is_bool_lit(&l, false) {
            r
        } else if is_bool_lit(&r, false) {
            l
        } else {
            Expr::BinOp(op, Box::new(l), Box::new(r))
        },
        BinOp::BoolEQ => if is_bool_lit(&l, true) {
            r
        } else if is_bool_lit(&r, true) {
            l
        } else if is_bool_lit(&l, false) && is_bool_lit(&r, false) {
            Expr::BoolLit(true)
        } else {
            Expr::BinOp(op, Box::new(l), Box::new(r))
        },
        BinOp::BoolNE => if is_bool_lit(&l, false) {
            r
        } else if is_bool_lit(&r, false) {
            l
        } else if is_bool_lit(&l, true) && is_bool_lit(&r, true) {
            Expr::BoolLit(false)
        } else {
            Expr::BinOp(op, Box::new(l), Box::new(r))
        },
        BinOp::NaturalPlus => if is_nat_lit(&l, 0) {
            r
        } else if is_nat_lit(&r, 0) {
            l
        } else {
            match (l, r) {
                (Expr::NaturalLit(a), Expr::NaturalLit(b)) => Expr::NaturalLit(a.wrapping_add(b)),
                (l2, r2) => Expr::BinOp(op, Box::new(l2), Box::new(r2)),
            }
        },
        BinOp::NaturalTimes => if is_nat_lit(&l, 0) || is_nat_lit(&r, 0) {
            Expr::NaturalLit(0)
        } else if is_nat_lit(&l, 1) {
            r
        } else if is_nat_lit(&r, 1) {
            l
        } else {
            match (l, r) {
                (Expr::NaturalLit(a), Expr::NaturalLit(b)) => Expr::NaturalLit(a.wrapping_mul(b)),
                (l2, r2) => Expr::BinOp(op, Box::new(l2), Box::new(r2)),
            }
        },
        BinOp::ListAppend => match (l, r) {
            (Expr::EmptyListLit(_), rr) => rr,
            (ll, Expr::EmptyListLit(_)) => ll,
            (Expr::NEListLit(a), Expr::NEListLit(b)) => Expr::NEListLit(exprs_append_exec(a, b)),
            (ll, rr) => Expr::BinOp(op, Box::new(ll), Box::new(rr)),
        },
        BinOp::TextAppend => if is_empty_text(&l) {
            r
        } else if is_empty_text(&r) {
            l
        } else {
            match (l, r) {
                (Expr::TextLit(a), Expr::TextLit(b)) => Expr::TextLit(texts_glue_exec(a, b)),
                (l2, r2) => Expr::BinOp(op, Box::new(l2), Box::new(r2)),
            }
        },
    }
}

/// Reduces `e` to its normal form with the given substitution budget; see
/// [`nrm`].
pub fn normalize_with_fuel(e: &Expr, fuel: u64) -> (res: Expr)
    ensures
        res == nrm(*e, fuel as nat),
    decreases fuel as nat, 4int, *e,
{
    match e {
        Expr::Const(c) => Expr::Const(*c),
        Expr::Var(v) => Expr::Var(clone_var(v)),
        Expr::Lam(x, t, b) => Expr::Lam(
            chars_clone(x),
            Box::new(normalize_with_fuel(t, fuel)),
            Box::new(normalize_with_fuel(b, fuel)),
        ),
        Expr::Pi(x, t, b) => Expr::Pi(
            chars_clone(x),
            Box::new(normalize_with_fuel(t, fuel)),
            Box::new(normalize_with_fuel(b, fuel)),
        ),
        Expr::App(f, a) => match &**f {
            Expr::Lam(x, _, b) => {
                let a2 = normalize_with_fuel(a, fuel);
                if fuel > 0 {
                    let v = Var { name: chars_clone(x), idx: 0 };
                    let sub = crate::subst::subst(&v, &a2, b);
                    normalize_with_fuel(&sub, fuel - 1)
                } else {
                    Expr::App(Box::new(clone_expr(f)), Box::new(a2))
                }
            },
            _ => {
                let f2 = normalize_with_fuel(f, fuel);
                let a2 = normalize_with_fuel(a, fuel);
                app_val_exec(f2, a2, fuel)
            },
        },
        Expr::Let(x, _, r, b) => {
            let r2 = normalize_with_fuel(r, fuel);
            if fuel > 0 {
                let v = Var { name: chars_clone(x), idx: 0 };
                let sub = crate::subst::subst(&v, &r2, b);
                normalize_with_fuel(&sub, fuel - 1)
            } else {
                Expr::Let(chars_clone(x), Option::None, Box::new(r2), Box::new(clone_expr(b)))
            }
        },
        Expr::Annot(a, _) => normalize_with_fuel(a, fuel),
        Expr::Builtin(b) => Expr::Builtin(*b),
        Expr::BoolLit(b) => Expr::BoolLit(*b),
        Expr::BoolIf(c, x, y) => {
            let c2 = normalize_with_fuel(c, fuel);
            if is_bool_lit(&c2, true) {
                normalize_with_fuel(x, fuel)
            } else if is_bool_lit(&c2, false) {
                normalize_with_fuel(y, fuel)
            } else {
                let x2 = normalize_with_fuel(x, fuel);
                let y2 = normalize_with_fuel(y, fuel);
                if is_bool_lit(&x2, true) && is_bool_lit(&y2, false) {
                    c2
                } else if expr_eq(&x2, &y2) {
                    x2
                } else {
                    Expr::BoolIf(Box::new(c2), Box::new(x2), Box::new(y2))
                }
            }
        },
        Expr::NaturalLit(n) => Expr::NaturalLit(*n),
        Expr::IntegerLit(n) => Expr::IntegerLit(*n),
        Expr::DoubleLit(n) => Expr::DoubleLit(*n),
        Expr::TextLit(ts) => Expr::TextLit(texts_canon_exec(nrm_texts_exec(ts, fuel))),
        Expr::BinOp(op, l, r) => binop_step_exec(
            *op,
            normalize_with_fuel(l, fuel),
            normalize_with_fuel(r, fuel),
        ),
        Expr::EmptyListLit(t) => Expr::EmptyListLit(Box::new(normalize_with_fuel(t, fuel))),
        Expr::NEListLit(xs) => Expr::NEListLit(nrm_exprs_exec(xs, fuel)),
        Expr::OptionalLit(t, xs) => match xs {
            Exprs::Nil => Expr::App(
                Box::new(Expr::Builtin(Builtin::OptionalNone)),
                Box::new(normalize_with_fuel(t, fuel)),
            ),
            Exprs::Cons(x, _) => Expr::SomeLit(Box::new(normalize_with_fuel(x, fuel))),
        },
        Expr::SomeLit(x) => Expr::SomeLit(Box::new(normalize_with_fuel(x, fuel))),
        Expr::Record(fs) => Expr::Record(nrm_fields_exec(fs, fuel)),
        Expr::RecordLit(fs) => Expr::RecordLit(nrm_fields_exec(fs, fuel)),
        Expr::Union(alts) => Expr::Union(nrm_alts_exec(alts, fuel)),
        Expr::UnionLit(l, x, alts) => Expr::UnionLit(
            chars_clone(l),
            Box::new(normalize_with_fuel(x, fuel)),
            nrm_alts_exec(alts, fuel),
        ),
        Expr::Field(r, x) => {
            let r2 = normalize_with_fuel(r, fuel);
            match r2 {
                Expr::RecordLit(fs) => match fields_get_exec(&fs, x) {
                    Option::Some(v) => v,
                    Option::None => Expr::Field(
                        Box::new(Expr::RecordLit(fs)),
                        chars_clone(x),
                    ),
                },
                other => Expr::Field(Box::new(other), chars_clone(x)),
            }
        },
        Expr::Projection(r, ls) => {
            let r2 = normalize_with_fuel(r, fuel);
            match ls {
                Labels::Nil => Expr::RecordLit(Fields::Nil),
                _ => match r2 {
                    Expr::RecordLit(fs) => Expr::RecordLit(fields_project_exec(fs, ls)),
                    other => Expr::Projection(Box::new(other), clone_labels(ls)),
                },
            }
        },
        Expr::Merge(h, u, t) => {
            let h2 = normalize_with_fuel(h, fuel);
            let u2 = normalize_with_fuel(u, fuel);
            let t2 = nrm_opt_exec(t, fuel);
            merge_step_exec(h2, u2, t2, fuel)
        },
    }
}

fn nrm_opt_exec(o: &Option<Box<Expr>>, fuel: u64) -> (res: Option<Box<Expr>>)
    ensures
        res == nrm_opt(*o, fuel as nat),
    decreases fuel as nat, 4int, *o,
{
    match o {
        Option::None => Option::None,
        Option::Some(e) => Option::Some(Box::new(normalize_with_fuel(e, fuel))),
    }
}

fn nrm_exprs_exec(xs: &Exprs, fuel: u64) -> (res: Exprs)
    ensures
        res == nrm_exprs(*xs, fuel as nat),
    decreases fuel as nat, 4int, *xs,
{
    match xs {
        Exprs::Nil => Exprs::Nil,
        Exprs::Cons(x, rest) => Exprs::Cons(
            Box::new(normalize_with_fuel(x, fuel)),
            Box::new(nrm_exprs_exec(rest, fuel)),
        ),
    }
}

fn nrm_fields_exec(fs: &Fields, fuel: u64) -> (res: Fields)
    ensures
        res == nrm_fields(*fs, fuel as nat),
    decreases fuel as nat, 4int, *fs,
{
    match fs {
        Fields::Nil => Fields::Nil,
        Fields::Cons(k, v, rest) => Fields::Cons(
            chars_clone(k),
            Box::new(normalize_with_fuel(v, fuel)),
            Box::new(nrm_fields_exec(rest, fuel)),
        ),
    }
}

fn nrm_alts_exec(alts: &Alts, fuel: u64) -> (res: Alts)
    ensures
        res == nrm_alts(*alts, fuel as nat),
    decreases fuel as nat, 4int, *alts,
{
    match alts {
        Alts::Nil => Alts::Nil,
        Alts::Cons(k, x, rest) => Alts::Cons(
            chars_clone(k),
            nrm_opt_exec(x, fuel),
            Box::new(nrm_alts_exec(rest, fuel)),
        ),
    }
}

fn nrm_texts_exec(ts: &Texts, fuel: u64) -> (res: Texts)
    ensures
        res == nrm_texts(*ts, fuel as nat),
    decreases fuel as nat, 4int, *ts,
{
    match ts {
        Texts::Nil => Texts::Nil,
        Texts::Text(s, rest) => Texts::Text(
            chars_clone(s),
            Box::new(nrm_texts_exec(rest, fuel)),
        ),
        Texts::Interp(e, rest) => Texts::Interp(
            Box::new(normalize_with_fuel(e, fuel)),
            Box::new(nrm_texts_exec(rest, fuel)),
        ),
    }
}

/// Applies a normalized function value to a normalized argument; see
/// [`app_val`].
fn app_val_exec(f: Expr, a: Expr, fuel: u64) -> (res: Expr)
    ensures
        res == app_val(f, a, fuel as nat),
    decreases fuel as nat, 3int, f,
{
    match f {
        Expr::Lam(x, t, b) => if fuel > 0 {
            let v = Var { name: chars_clone(&x), idx: 0 };
            let sub = crate::subst::subst(&v, &a, &b);
            normalize_with_fuel(&sub, fuel - 1)
        } else {
            Expr::App(Box::new(Expr::Lam(x, t, b)), Box::new(a))
        },
        Expr::Field(u, l) => match *u {
            Expr::Union(alts) => Expr::UnionLit(l, Box::new(a), alts),
            other => Expr::App(
                Box::new(Expr::Field(Box::new(other), l)),
                Box::new(a),
            ),
        },
        other => match spine_of_exec(&other) {
            Option::Some((b, args)) => {
                let full = exprs_snoc_exec(args, clone_expr(&a));
                match apply_builtin_exec(b, &full, fuel) {
                    Option::Some(res) => res,
                    Option::None => Expr::App(Box::new(other), Box::new(a)),
                }
            },
            Option::None => Expr::App(Box::new(other), Box::new(a)),
        },
    }
}

/// Reduces a pattern match whose parts are normalized; see [`merge_step`].
fn merge_step_exec(h: Expr, u: Expr, t: Option<Box<Expr>>, fuel: u64) -> (res: Expr)
    ensures
        res == merge_step(h, u, t, fuel as nat),
    decreases fuel as nat, 3int, h,
{
    match h {
        Expr::RecordLit(handlers) => match u {
            Expr::Field(ub, l) => match *ub {
                Expr::Union(alts) => match fields_get_exec(&handlers, &l) {
                    Option::Some(hl) => hl,
                    Option::None => Expr::Merge(
                        Box::new(Expr::RecordLit(handlers)),
                        Box::new(Expr::Field(Box::new(Expr::Union(alts)), l)),
                        t,
                    ),
                },
                other => Expr::Merge(
                    Box::new(Expr::RecordLit(handlers)),
                    Box::new(Expr::Field(Box::new(other), l)),
                    t,
                ),
            },
            Expr::UnionLit(l, v, alts) => match fields_get_exec(&handlers, &l) {
                Option::Some(hl) => if fuel > 0 {
                    let term = Expr::App(Box::new(hl), v);
                    normalize_with_fuel(&term, fuel - 1)
                } else {
                    Expr::Merge(
                        Box::new(Expr::RecordLit(handlers)),
                        Box::new(Expr::UnionLit(l, v, alts)),
                        t,
                    )
                },
                Option::None => Expr::Merge(
                    Box::new(Expr::RecordLit(handlers)),
                    Box::new(Expr::UnionLit(l, v, alts)),
                    t,
                ),
            },
            other => Expr::Merge(Box::new(Expr::RecordLit(handlers)), Box::new(other), t),
        },
        other => Expr::Merge(Box::new(other), Box::new(u), t),
    }
}

} // verus!

verus! {

/// Tries the reduction rule of built-in `b` on the accumulated normalized
/// arguments; see [`apply_builtin`].
#[verifier::rlimit(100)]
#[verifier::spinoff_prover]
fn apply_builtin_exec(b: Builtin, args: &Exprs, fuel: u64) -> (res: Option<Expr>)
    ensures
        res == apply_builtin(b, *args, fuel as nat),
    decreases fuel as nat, 2int, *args,
{
    proof {
        reveal(apply_list_fold_eval);
        reveal(apply_optional_fold_eval);
        reveal(apply_natural_fold_eval);
    }
    let n = exprs_len_exec(args);
    match b {
        Builtin::NaturalIsZero => if n == 1 {
            match exprs_at_ref(args, 0) {
                Expr::NaturalLit(m) => Option::Some(Expr::BoolLit(*m == 0)),
                _ => Option::None,
            }
        } else {
            Option::None
        },
        Builtin::NaturalEven => if n == 1 {
            match exprs_at_ref(args, 0) {
                Expr::NaturalLit(m) => Option::Some(Expr::BoolLit(*m % 2 == 0)),
                _ => Option::None,
            }
        } else {
            Option::None
        },
        Builtin::NaturalOdd => if n == 1 {
            match exprs_at_ref(args, 0) {
                Expr::NaturalLit(m) => Option::Some(Expr::BoolLit(*m % 2 != 0)),
                _ => Option::None,
            }
        } else {
            Option::None
        },
        Builtin::NaturalToInteger => if n == 1 {
            match exprs_at_ref(args, 0) {
                Expr::NaturalLit(m) => Option::Some(Expr::IntegerLit(to_integer_exec(*m))),
                _ => Option::None,
            }
        } else {
            Option::None
        },
        Builtin::NaturalShow => if n == 1 {
            match exprs_at_ref(args, 0) {
                Expr::NaturalLit(m) => Option::Some(
                    Expr::TextLit(Texts::Text(nat_digits_exec(*m), Box::new(Texts::Nil))),
                ),
                _ => Option::None,
            }
        } else {
            Option::None
        },
        Builtin::ListLength => if n == 2 {
            match exprs_at_ref(args, 1) {
                Expr::EmptyListLit(_) => Option::Some(Expr::NaturalLit(0)),
                Expr::NEListLit(xs) => Option::Some(Expr::NaturalLit(exprs_len_exec(xs))),
                _ => Option::None,
            }
        } else {
            Option::None
        },
        Builtin::ListHead => if n == 2 {
            match exprs_at_ref(args, 1) {
                Expr::EmptyListLit(t) => Option::Some(
                    Expr::App(
                        Box::new(Expr::Builtin(Builtin::OptionalNone)),
                        Box::new(clone_expr(t)),
                    ),
                ),
                Expr::NEListLit(xs) => match xs {
                    Exprs::Cons(x, _) => Option::Some(Expr::SomeLit(Box::new(clone_expr(x)))),
                    Exprs::Nil => Option::None,
                },
                _ => Option::None,
            }
        } else {
            Option::None
        },
        Builtin::ListLast => if n == 2 {
            match exprs_at_ref(args, 1) {
                Expr::EmptyListLit(t) => Option::Some(
                    Expr::App(
                        Box::new(Expr::Builtin(Builtin::OptionalNone)),
                        Box::new(clone_expr(t)),
                    ),
                ),
                Expr::NEListLit(xs) => match xs {
                    Exprs::Cons(_, _) => Option::Some(
                        Expr::SomeLit(Box::new(clone_expr(exprs_last_ref(xs)))),
                    ),
                    Exprs::Nil => Option::None,
                },
                _ => Option::None,
            }
        } else {
            Option::None
        },
        Builtin::ListReverse => if n == 2 {
            match exprs_at_ref(args, 1) {
                Expr::EmptyListLit(t) => Option::Some(Expr::EmptyListLit(Box::new(clone_expr(t)))),
                Expr::NEListLit(xs) => Option::Some(
                    Expr::NEListLit(exprs_reverse_exec(clone_exprs(xs))),
                ),
                _ => Option::None,
            }
        } else {
            Option::None
        },
        Builtin::ListIndexed => if n == 2 {
            match exprs_at_ref(args, 1) {
                Expr::EmptyListLit(t) => Option::Some(
                    Expr::EmptyListLit(Box::new(indexed_record_type_exec(clone_expr(t)))),
                ),
                Expr::NEListLit(xs) => Option::Some(
                    Expr::NEListLit(exprs_indexed_exec(clone_exprs(xs), 0)),
                ),
                _ => Option::None,
            }
        } else {
            Option::None
        },
        Builtin::ListBuild => if n == 2 {
            let t = exprs_at_ref(args, 0);
            let g = exprs_at_ref(args, 1);
            match spine_of_exec(g) {
                Option::Some((b2, fargs)) => if b2 == Builtin::ListFold && exprs_len_exec(&fargs)
                    >= 2 {
                    Option::Some(clone_expr(exprs_at_ref(&fargs, 1)))
                } else {
                    list_build_expand_exec(t, g, fuel)
                },
                Option::None => list_build_expand_exec(t, g, fuel),
            }
        } else {
            Option::None
        },
        Builtin::ListFold => if n == 2 {
            match spine_of_exec(exprs_at_ref(args, 1)) {
                Option::Some((b2, bargs)) => if b2 == Builtin::ListBuild && exprs_len_exec(&bargs)
                    >= 2 {
                    Option::Some(clone_expr(exprs_at_ref(&bargs, 1)))
                } else {
                    Option::None
                },
                Option::None => Option::None,
            }
        } else if n == 5 {
            match exprs_at_ref(args, 1) {
                Expr::EmptyListLit(_) => Option::Some(clone_expr(exprs_at_ref(args, 4))),
                Expr::NEListLit(xs) => if fuel > 0 {
                    let term = fold_right_term_exec(
                        exprs_at_ref(args, 3),
                        clone_exprs(xs),
                        clone_expr(exprs_at_ref(args, 4)),
                    );
                    Option::Some(normalize_with_fuel(&term, fuel - 1))
                } else {
                    Option::None
                },
                _ => Option::None,
            }
        } else {
            Option::None
        },
        Builtin::OptionalBuild => if n == 2 {
            let t = exprs_at_ref(args, 0);
            let g = exprs_at_ref(args, 1);
            match spine_of_exec(g) {
                Option::Some((b2, fargs)) => if b2 == Builtin::OptionalFold && exprs_len_exec(
                    &fargs,
                ) >= 2 {
                    Option::Some(clone_expr(exprs_at_ref(&fargs, 1)))
                } else {
                    optional_build_expand_exec(t, g, fuel)
                },
                Option::None => optional_build_expand_exec(t, g, fuel),
            }
        } else {
            Option::None
        },
        Builtin::OptionalFold => if n == 2 {
            match spine_of_exec(exprs_at_ref(args, 1)) {
                Option::Some((b2, bargs)) => if b2 == Builtin::OptionalBuild && exprs_len_exec(
                    &bargs,
                ) >= 2 {
                    Option::Some(clone_expr(exprs_at_ref(&bargs, 1)))
                } else {
                    Option::None
                },
                Option::None => Option::None,
            }
        } else if n == 5 {
            match exprs_at_ref(args, 1) {
                Expr::App(f0, _) => if expr_eq(f0, &Expr::Builtin(Builtin::OptionalNone)) {
                    Option::Some(clone_expr(exprs_at_ref(args, 4)))
                } else {
                    Option::None
                },
                Expr::SomeLit(x) => if fuel > 0 {
                    let term = Expr::App(
                        Box::new(clone_expr(exprs_at_ref(args, 3))),
                        Box::new(clone_expr(x)),
                    );
                    Option::Some(normalize_with_fuel(&term, fuel - 1))
                } else {
                    Option::None
                },
                _ => Option::None,
            }
        } else {
            Option::None
        },
        Builtin::NaturalBuild => if n == 1 {
            let g = exprs_at_ref(args, 0);
            match spine_of_exec(g) {
                Option::Some((b2, fargs)) => if b2 == Builtin::NaturalFold && exprs_len_exec(
                    &fargs,
                ) >= 1 {
                    Option::Some(clone_expr(exprs_at_ref(&fargs, 0)))
                } else {
                    natural_build_expand_exec(g, fuel)
                },
                Option::None => natural_build_expand_exec(g, fuel),
            }
        } else {
            Option::None
        },
        Builtin::NaturalFold => if n == 1 {
            match spine_of_exec(exprs_at_ref(args, 0)) {
                Option::Some((b2, bargs)) => if b2 == Builtin::NaturalBuild && exprs_len_exec(
                    &bargs,
                ) >= 1 {
                    Option::Some(clone_expr(exprs_at_ref(&bargs, 0)))
                } else {
                    Option::None
                },
                Option::None => Option::None,
            }
        } else if n == 4 {
            match exprs_at_ref(args, 0) {
                Expr::NaturalLit(m) => if *m == 0 {
                    Option::Some(clone_expr(exprs_at_ref(args, 3)))
                } else if fuel > 0 {
                    let term = Expr::App(
                        Box::new(clone_expr(exprs_at_ref(args, 2))),
                        Box::new(
                            Expr::App(
                                Box::new(
                                    Expr::App(
                                        Box::new(
                                            Expr::App(
                                                Box::new(
                                                    Expr::App(
                                                        Box::new(
                                                            Expr::Builtin(Builtin::NaturalFold),
                                                        ),
                                                        Box::new(Expr::NaturalLit(*m - 1)),
                                                    ),
                                                ),
                                                Box::new(clone_expr(exprs_at_ref(args, 1))),
                                            ),
                                        ),
                                        Box::new(clone_expr(exprs_at_ref(args, 2))),
                                    ),
                                ),
                                Box::new(clone_expr(exprs_at_ref(args, 3))),
                            ),
                        ),
                    );
                    Option::Some(normalize_with_fuel(&term, fuel - 1))
                } else {
                    Option::None
                },
                _ => Option::None,
            }
        } else {
            Option::None
        },
        _ => Option::None,
    }
}

fn list_build_expand_exec(t: &Expr, g: &Expr, fuel: u64) -> (res: Option<Expr>)
    ensures
        res == list_build_expand(*t, *g, fuel as nat),
    decreases fuel as nat, 0int, *g,
{
    proof {
        reveal(list_build_expand);
    }
    if fuel > 0 {
        let term = Expr::App(
            Box::new(
                Expr::App(
                    Box::new(
                        Expr::App(
                            Box::new(clone_expr(g)),
                            Box::new(
                                Expr::App(
                                    Box::new(Expr::Builtin(Builtin::List)),
                                    Box::new(clone_expr(t)),
                                ),
                            ),
                        ),
                    ),
                    Box::new(list_cons_lam_exec(t)),
                ),
            ),
            Box::new(Expr::EmptyListLit(Box::new(clone_expr(t)))),
        );
        Option::Some(normalize_with_fuel(&term, fuel - 1))
    } else {
        Option::None
    }
}

fn optional_build_expand_exec(t: &Expr, g: &Expr, fuel: u64) -> (res: Option<Expr>)
    ensures
        res == optional_build_expand(*t, *g, fuel as nat),
    decreases fuel as nat, 0int, *g,
{
    proof {
        reveal(optional_build_expand);
    }
    if fuel > 0 {
        let term = Expr::App(
            Box::new(
                Expr::App(
                    Box::new(
                        Expr::App(
                            Box::new(clone_expr(g)),
                            Box::new(
                                Expr::App(
                                    Box::new(Expr::Builtin(Builtin::Optional)),
                                    Box::new(clone_expr(t)),
                                ),
                            ),
                        ),
                    ),
                    Box::new(some_lam_exec(clone_expr(t))),
                ),
            ),
            Box::new(
                Expr::App(
                    Box::new(Expr::Builtin(Builtin::OptionalNone)),
                    Box::new(clone_expr(t)),
                ),
            ),
        );
        Option::Some(normalize_with_fuel(&term, fuel - 1))
    } else {
        Option::None
    }
}

fn natural_build_expand_exec(g: &Expr, fuel: u64) -> (res: Option<Expr>)
    ensures
        res == natural_build_expand(*g, fuel as nat),
    decreases fuel as nat, 0int, *g,
{
    proof {
        reveal(natural_build_expand);
    }
    if fuel > 0 {
        let term = Expr::App(
            Box::new(
                Expr::App(
                    Box::new(
                        Expr::App(
                            Box::new(clone_expr(g)),
                            Box::new(Expr::Builtin(Builtin::Natural)),
                        ),
                    ),
                    Box::new(succ_lam_exec()),
                ),
            ),
            Box::new(Expr::NaturalLit(0)),
        );
        Option::Some(normalize_with_fuel(&term, fuel - 1))
    } else {
        Option::None
    }
}

/// The substitution budget the public entry point allows: far beyond what
/// any configuration-language expression of reasonable size consumes.
pub const NORMALIZE_FUEL: u64 = 1000000;

/// Reduces an expression to its normal form, performing beta reduction.
///
/// `normalize` does not type-check the expression and never fails: it
/// leaves ill-typed or stuck sub-terms unevaluated.
pub fn normalize(e: &Expr) -> (res: Expr)
    ensures
        res == nrm(*e, NORMALIZE_FUEL as nat),
{
    normalize_with_fuel(e, NORMALIZE_FUEL)
}

} // verus!

verus! {

/// Beta law: applying a lambda reduces to normalizing the body with the
/// normalized argument substituted for the bound variable; one unit of the
/// budget pays for the substitution step.
pub proof fn lemma_beta(x: Chars, t: Expr, b: Expr, a: Expr, fuel: nat)
    requires
        fuel >= 1,
    ensures
        nrm(Expr::App(Box::new(Expr::Lam(x, Box::new(t), Box::new(b))), Box::new(a)), fuel)
            == nrm(subst_expr(Var { name: x, idx: 0 }, nrm(a, fuel), b), (fuel - 1) as nat),
{
}

/// Beta law for an argument already in normal form, as the substitution
/// lemma is usually quoted.
pub proof fn lemma_beta_normal_arg(x: Chars, t: Expr, b: Expr, a: Expr, fuel: nat)
    requires
        fuel >= 1,
        nrm(a, fuel) == a,
    ensures
        nrm(Expr::App(Box::new(Expr::Lam(x, Box::new(t), Box::new(b))), Box::new(a)), fuel)
            == nrm(subst_expr(Var { name: x, idx: 0 }, a, b), (fuel - 1) as nat),
{
    lemma_beta(x, t, b, a, fuel);
}

/// Identity and absorbing element laws of the binary operators: an
/// identity element on either side normalizes to the other operand's
/// normal form, and an absorbing element decides the result by itself.
/// Normalizing a binary operator node is one reduction step on the
/// operands' normal forms.
pub proof fn lemma_nrm_binop(op: BinOp, l: Expr, r: Expr, fuel: nat)
    ensures
        nrm(bin(op, l, r), fuel) == binop_step(op, nrm(l, fuel), nrm(r, fuel)),
{
}

/// Identity and absorbing element laws for natural arithmetic: adding zero
/// or multiplying by one on either side normalizes to the other operand's
/// normal form, and multiplying by zero is zero.
pub proof fn lemma_natural_identities(x: Expr, fuel: nat)
    ensures
        nrm(bin(BinOp::NaturalPlus, Expr::NaturalLit(0), x), fuel) == nrm(x, fuel),
        nrm(bin(BinOp::NaturalPlus, x, Expr::NaturalLit(0)), fuel) == nrm(x, fuel),
        nrm(bin(BinOp::NaturalTimes, Expr::NaturalLit(0), x), fuel) == Expr::NaturalLit(0),
        nrm(bin(BinOp::NaturalTimes, x, Expr::NaturalLit(0)), fuel) == Expr::NaturalLit(0),
        nrm(bin(BinOp::NaturalTimes, Expr::NaturalLit(1), x), fuel) == nrm(x, fuel),
        nrm(bin(BinOp::NaturalTimes, x, Expr::NaturalLit(1)), fuel) == nrm(x, fuel),
{
    let zero = Expr::NaturalLit(0);
    let one = Expr::NaturalLit(1);
    assert(nrm(zero, fuel) == zero);
    assert(nrm(one, fuel) == one);
    lemma_nrm_binop(BinOp::NaturalPlus, zero, x, fuel);
    lemma_nrm_binop(BinOp::NaturalPlus, x, zero, fuel);
    lemma_nrm_binop(BinOp::NaturalTimes, zero, x, fuel);
    lemma_nrm_binop(BinOp::NaturalTimes, x, zero, fuel);
    lemma_nrm_binop(BinOp::NaturalTimes, one, x, fuel);
    lemma_nrm_binop(BinOp::NaturalTimes, x, one, fuel);
}

/// Identity and absorbing element laws for the boolean operators.
pub proof fn lemma_bool_identities(x: Expr, fuel: nat)
    ensures
        nrm(bin(BinOp::BoolAnd, Expr::BoolLit(true), x), fuel) == nrm(x, fuel),
        nrm(bin(BinOp::BoolAnd, x, Expr::BoolLit(true)), fuel) == nrm(x, fuel),
        nrm(bin(BinOp::BoolAnd, Expr::BoolLit(false), x), fuel) == Expr::BoolLit(false),
        nrm(bin(BinOp::BoolAnd, x, Expr::BoolLit(false)), fuel) == Expr::BoolLit(false),
        nrm(bin(BinOp::BoolOr, Expr::BoolLit(false), x), fuel) == nrm(x, fuel),
        nrm(bin(BinOp::BoolOr, x, Expr::BoolLit(false)), fuel) == nrm(x, fuel),
        nrm(bin(BinOp::BoolOr, Expr::BoolLit(true), x), fuel) == Expr::BoolLit(true),
        nrm(bin(BinOp::BoolOr, x, Expr::BoolLit(true)), fuel) == Expr::BoolLit(true),
        nrm(bin(BinOp::BoolEQ, Expr::BoolLit(true), x), fuel) == nrm(x, fuel),
        nrm(bin(BinOp::BoolEQ, x, Expr::BoolLit(true)), fuel) == nrm(x, fuel),
        nrm(bin(BinOp::BoolNE, Expr::BoolLit(false), x), fuel) == nrm(x, fuel),
        nrm(bin(BinOp::BoolNE, x, Expr::BoolLit(false)), fuel) == nrm(x, fuel),
{
    let tt = Expr::BoolLit(true);
    let ff = Expr::BoolLit(false);
    assert(nrm(tt, fuel) == tt);
    assert(nrm(ff, fuel) == ff);
    lemma_nrm_binop(BinOp::BoolAnd, tt, x, fuel);
    lemma_nrm_binop(BinOp::BoolAnd, x, tt, fuel);
    lemma_nrm_binop(BinOp::BoolAnd, ff, x, fuel);
    lemma_nrm_binop(BinOp::BoolAnd, x, ff, fuel);
    lemma_nrm_binop(BinOp::BoolOr, ff, x, fuel);
    lemma_nrm_binop(BinOp::BoolOr, x, ff, fuel);
    lemma_nrm_binop(BinOp::BoolOr, tt, x, fuel);
    lemma_nrm_binop(BinOp::BoolOr, x, tt, fuel);
    lemma_nrm_binop(BinOp::BoolEQ, tt, x, fuel);
    lemma_nrm_binop(BinOp::BoolEQ, x, tt, fuel);
    lemma_nrm_binop(BinOp::BoolNE, ff, x, fuel);
    lemma_nrm_binop(BinOp::BoolNE, x, ff, fuel);
}

/// Identity element laws for concatenation: the empty list and the empty
/// text literal are identities on either side.
pub proof fn lemma_append_identities(x: Expr, t: Expr, fuel: nat)
    ensures
        nrm(bin(BinOp::ListAppend, Expr::EmptyListLit(Box::new(t)), x), fuel) == nrm(x, fuel),
        nrm(bin(BinOp::TextAppend, Expr::TextLit(Texts::Nil), x), fuel) == nrm(x, fuel),
        nrm(bin(BinOp::TextAppend, x, Expr::TextLit(Texts::Nil)), fuel) == nrm(x, fuel),
{
    let el = Expr::EmptyListLit(Box::new(t));
    let et = Expr::TextLit(Texts::Nil);
    assert(nrm(el, fuel) == Expr::EmptyListLit(Box::new(nrm(t, fuel))));
    assert(nrm_texts(Texts::Nil, fuel) == Texts::Nil);
    assert(texts_canon(Texts::Nil) == Texts::Nil);
    assert(nrm(et, fuel) == et);
    lemma_nrm_binop(BinOp::ListAppend, el, x, fuel);
    lemma_nrm_binop(BinOp::ListAppend, x, el, fuel);
    lemma_nrm_binop(BinOp::TextAppend, et, x, fuel);
    lemma_nrm_binop(BinOp::TextAppend, x, et, fuel);
}

/// Identity element law for appending the empty list on the right.  When
/// the left operand itself normalizes to an empty list literal, the
/// evaluator instead keeps the right operand with its own element-type
/// annotation, so that shape is set aside here.
pub proof fn lemma_append_empty_right(x: Expr, t: Expr, fuel: nat)
    requires
        !(nrm(x, fuel) is EmptyListLit),
    ensures
        nrm(bin(BinOp::ListAppend, x, Expr::EmptyListLit(Box::new(t))), fuel) == nrm(x, fuel),
{
    let el = Expr::EmptyListLit(Box::new(t));
    assert(nrm(el, fuel) == Expr::EmptyListLit(Box::new(nrm(t, fuel))));
    lemma_nrm_binop(BinOp::ListAppend, x, el, fuel);
}

/// A convenience for writing a binary operator node in the laws.
pub open spec fn bin(op: BinOp, l: Expr, r: Expr) -> Expr {
    Expr::BinOp(op, Box::new(l), Box::new(r))
}

} // verus!

verus! {

/// Whether `e` is `List/build` applied to at least two arguments.
pub open spec fn is_list_build_applied(e: Expr) -> bool {
    match spine_of(e) {
        Option::Some((b, args)) => b == Builtin::ListBuild && exprs_len(args) >= 2,
        Option::None => false,
    }
}

/// Normalizing an application whose function part is not a lambda written
/// in place applies the function's normal form to the argument's.
proof fn lemma_nrm_app(f: Expr, a: Expr, fuel: nat)
    requires
        !(f is Lam),
    ensures
        nrm(Expr::App(Box::new(f), Box::new(a)), fuel) == app_val(
            nrm(f, fuel),
            nrm(a, fuel),
            fuel,
        ),
{
}

/// A normalized built-in application spine consumes one more argument
/// through its reduction rule, or accumulates it.
proof fn lemma_app_val_spine(f: Expr, a: Expr, b: Builtin, args: Exprs, fuel: nat)
    requires
        !(f is Lam),
        !(f is Field),
        spine_of(f) == Option::Some((b, args)),
    ensures
        app_val(f, a, fuel) == match apply_builtin(b, exprs_snoc(args, a), fuel) {
            Option::Some(res) => res,
            Option::None => Expr::App(Box::new(f), Box::new(a)),
        },
{
}

/// A one-element argument list leaves `List/build` and `List/fold`
/// waiting for more.
proof fn lemma_list_builtin_one_arg_stuck(t: Expr, fuel: nat)
    ensures
        apply_builtin(
            Builtin::ListBuild,
            Exprs::Cons(Box::new(t), Box::new(Exprs::Nil)),
            fuel,
        ) is None,
        apply_builtin(
            Builtin::ListFold,
            Exprs::Cons(Box::new(t), Box::new(Exprs::Nil)),
            fuel,
        ) is None,
{
    let args = Exprs::Cons(Box::new(t), Box::new(Exprs::Nil));
    assert(exprs_len(Exprs::Nil) == 0);
    assert(exprs_len(args) == 1);
}

/// `List/fold t l` stays stuck when `l` is not an applied `List/build`.
#[verifier::rlimit(60)]
#[verifier::spinoff_prover]
proof fn lemma_listfold_two_args_stuck(t: Expr, l: Expr, fuel: nat)
    requires
        !is_list_build_applied(l),
    ensures
        apply_builtin(
            Builtin::ListFold,
            Exprs::Cons(Box::new(t), Box::new(Exprs::Cons(Box::new(l), Box::new(Exprs::Nil)))),
            fuel,
        ) is None,
{
    let args = Exprs::Cons(Box::new(t), Box::new(Exprs::Cons(Box::new(l), Box::new(Exprs::Nil))));
    assert(exprs_len(Exprs::Nil) == 0);
    assert(exprs_len(Exprs::Cons(Box::new(l), Box::new(Exprs::Nil))) == 1);
    assert(exprs_len(args) == 2);
    assert(exprs_at(Exprs::Cons(Box::new(l), Box::new(Exprs::Nil)), 0) == l);
    assert(exprs_at(args, 1) == l);
    assert(apply_list_fold_fusion(l) is None);
}

/// `List/build t g` fuses when `g` is `List/fold` applied to its type and
/// subject, yielding the subject.
#[verifier::rlimit(60)]
#[verifier::spinoff_prover]
proof fn lemma_listbuild_fuses(t: Expr, g: Expr, t2: Expr, l: Expr, fuel: nat)
    requires
        spine_of(g) == Option::Some(
            (
                Builtin::ListFold,
                Exprs::Cons(Box::new(t2), Box::new(Exprs::Cons(Box::new(l), Box::new(Exprs::Nil)))),
            ),
        ),
    ensures
        apply_builtin(
            Builtin::ListBuild,
            Exprs::Cons(Box::new(t), Box::new(Exprs::Cons(Box::new(g), Box::new(Exprs::Nil)))),
            fuel,
        ) == Option::Some(l),
{
    let fargs = Exprs::Cons(Box::new(t2), Box::new(Exprs::Cons(Box::new(l), Box::new(Exprs::Nil))));
    let args = Exprs::Cons(Box::new(t), Box::new(Exprs::Cons(Box::new(g), Box::new(Exprs::Nil))));
    assert(exprs_len(Exprs::Nil) == 0);
    assert(exprs_len(Exprs::Cons(Box::new(g), Box::new(Exprs::Nil))) == 1);
    assert(exprs_len(args) == 2);
    assert(exprs_at(Exprs::Cons(Box::new(g), Box::new(Exprs::Nil)), 0) == g);
    assert(exprs_at(args, 0) == t);
    assert(exprs_at(args, 1) == g);
    assert(exprs_len(Exprs::Cons(Box::new(l), Box::new(Exprs::Nil))) == 1);
    assert(exprs_len(fargs) == 2);
    assert(exprs_at(Exprs::Cons(Box::new(l), Box::new(Exprs::Nil)), 0) == l);
    assert(exprs_at(fargs, 1) == l);
    assert(apply_list_build(t, g, fuel) == Option::Some(l));
}

/// Fold/build fusion: `List/build t1 (List/fold t2 l)` normalizes straight
/// to the normal form of `l`, without the Church-encoding expansion of
/// `List/build` being observable in the result.  The one shape set aside is
/// an `l` that itself normalizes to an applied `List/build`, where the
/// symmetric fusion rule inside `List/fold` fires first.
pub proof fn lemma_fold_build_fusion(t1: Expr, t2: Expr, l: Expr, fuel: nat)
    requires
        !is_list_build_applied(nrm(l, fuel)),
    ensures
        nrm(
            Expr::App(
                Box::new(Expr::App(Box::new(Expr::Builtin(Builtin::ListBuild)), Box::new(t1))),
                Box::new(
                    Expr::App(
                        Box::new(
                            Expr::App(Box::new(Expr::Builtin(Builtin::ListFold)), Box::new(t2)),
                        ),
                        Box::new(l),
                    ),
                ),
            ),
            fuel,
        ) == nrm(l, fuel),
{
    let lb = Expr::Builtin(Builtin::ListBuild);
    let lf = Expr::Builtin(Builtin::ListFold);
    let t1p = nrm(t1, fuel);
    let t2p = nrm(t2, fuel);
    let lp = nrm(l, fuel);
    let fb = Expr::App(Box::new(lb), Box::new(t1));
    let gf = Expr::App(Box::new(lf), Box::new(t2));
    let a = Expr::App(Box::new(gf), Box::new(l));
    let e = Expr::App(Box::new(fb), Box::new(a));
    let one_b = Exprs::Cons(Box::new(t1p), Box::new(Exprs::Nil));
    let one_f = Exprs::Cons(Box::new(t2p), Box::new(Exprs::Nil));
    let fbp = Expr::App(Box::new(lb), Box::new(t1p));
    let gfp = Expr::App(Box::new(lf), Box::new(t2p));
    let ap = Expr::App(Box::new(gfp), Box::new(lp));

    assert(nrm(lb, fuel) == lb);
    assert(nrm(lf, fuel) == lf);
    assert(spine_of(lb) == Option::Some((Builtin::ListBuild, Exprs::Nil)));
    assert(spine_of(lf) == Option::Some((Builtin::ListFold, Exprs::Nil)));
    assert(exprs_snoc(Exprs::Nil, t1p) == one_b);
    assert(exprs_snoc(Exprs::Nil, t2p) == one_f);

    lemma_nrm_app(lb, t1, fuel);
    lemma_app_val_spine(lb, t1p, Builtin::ListBuild, Exprs::Nil, fuel);
    lemma_list_builtin_one_arg_stuck(t1p, fuel);
    assert(nrm(fb, fuel) == fbp);

    lemma_nrm_app(lf, t2, fuel);
    lemma_app_val_spine(lf, t2p, Builtin::ListFold, Exprs::Nil, fuel);
    lemma_list_builtin_one_arg_stuck(t2p, fuel);
    assert(nrm(gf, fuel) == gfp);

    let two_f = exprs_snoc(one_f, lp);
    assert(two_f == Exprs::Cons(
        Box::new(t2p),
        Box::new(Exprs::Cons(Box::new(lp), Box::new(Exprs::Nil))),
    )) by {
        assert(exprs_snoc(Exprs::Nil, lp) == Exprs::Cons(Box::new(lp), Box::new(Exprs::Nil)));
    }
    assert(spine_of(gfp) == Option::Some((Builtin::ListFold, one_f)));
    lemma_nrm_app(gf, l, fuel);
    lemma_app_val_spine(gfp, lp, Builtin::ListFold, one_f, fuel);
    lemma_listfold_two_args_stuck(t2p, lp, fuel);
    assert(nrm(a, fuel) == ap);

    let two_b = exprs_snoc(one_b, ap);
    assert(two_b == Exprs::Cons(
        Box::new(t1p),
        Box::new(Exprs::Cons(Box::new(ap), Box::new(Exprs::Nil))),
    )) by {
        assert(exprs_snoc(Exprs::Nil, ap) == Exprs::Cons(Box::new(ap), Box::new(Exprs::Nil)));
    }
    assert(spine_of(fbp) == Option::Some((Builtin::ListBuild, one_b)));
    assert(spine_of(ap) == Option::Some((Builtin::ListFold, two_f)));
    lemma_nrm_app(fb, a, fuel);
    lemma_app_val_spine(fbp, ap, Builtin::ListBuild, one_b, fuel);
    lemma_listbuild_fuses(t1p, ap, t2p, lp, fuel);
    assert(nrm(e, fuel) == lp);
}

} // verus!

verus! {

/// A term that normalization provably leaves unchanged: a fully reduced
/// constructor tree, or one of the common stuck shapes built from such
/// terms — an application whose head is opaque (not a lambda, a union
/// constructor or a built-in spine), a field selection or projection on a
/// receiver that is not a record literal, a selection of a missing field,
/// and a conditional whose parts give no rule a hold.  A few rarer stuck
/// shapes (a partially applied built-in, an operator stuck on opaque
/// operands, a stuck pattern match) are normal forms too but fall outside
/// this predicate.
pub open spec fn is_reduced(e: Expr) -> bool
    decreases e,
{
    match e {
        Expr::Const(_) => true,
        Expr::Var(_) => true,
        Expr::Builtin(_) => true,
        Expr::BoolLit(_) => true,
        Expr::NaturalLit(_) => true,
        Expr::IntegerLit(_) => true,
        Expr::DoubleLit(_) => true,
        Expr::Lam(_, t, b) => is_reduced(*t) && is_reduced(*b),
        Expr::Pi(_, t, b) => is_reduced(*t) && is_reduced(*b),
        Expr::EmptyListLit(t) => is_reduced(*t),
        Expr::NEListLit(xs) => is_reduced_exprs(xs),
        Expr::SomeLit(x) => is_reduced(*x),
        Expr::Record(fs) => is_reduced_fields(fs),
        Expr::RecordLit(fs) => is_reduced_fields(fs),
        Expr::Union(alts) => is_reduced_alts(alts),
        Expr::UnionLit(_, x, alts) => is_reduced(*x) && is_reduced_alts(alts),
        Expr::TextLit(ts) => is_canon_texts(ts),
        Expr::App(f, a) => is_reduced(*f) && is_reduced(*a) && !(*f is Lam) && (match *f {
            Expr::Field(u, _) => !(*u is Union),
            _ => true,
        }) && spine_of(*f) is None,
        Expr::Field(r, x) => is_reduced(*r) && (match *r {
            Expr::RecordLit(fs) => fields_get(fs, x) is None,
            _ => true,
        }),
        Expr::Projection(r, ls) => is_reduced(*r) && ls is Cons && !(*r is RecordLit),
        Expr::BoolIf(c, x, y) => is_reduced(*c) && is_reduced(*x) && is_reduced(*y) && !(
        *c is BoolLit) && !(*x == Expr::BoolLit(true) && *y == Expr::BoolLit(false)) && *x != *y,
        _ => false,
    }
}

/// [`is_reduced`] through each element of an expression list.
pub open spec fn is_reduced_exprs(xs: Exprs) -> bool
    decreases xs,
{
    match xs {
        Exprs::Nil => true,
        Exprs::Cons(x, rest) => is_reduced(*x) && is_reduced_exprs(*rest),
    }
}

/// [`is_reduced`] through each field value.
pub open spec fn is_reduced_fields(fs: Fields) -> bool
    decreases fs,
{
    match fs {
        Fields::Nil => true,
        Fields::Cons(_, v, rest) => is_reduced(*v) && is_reduced_fields(*rest),
    }
}

/// [`is_reduced`] through each alternative's payload type.
pub open spec fn is_reduced_alts(alts: Alts) -> bool
    decreases alts,
{
    match alts {
        Alts::Nil => true,
        Alts::Cons(_, v, rest) => (match v {
            Option::None => true,
            Option::Some(t) => is_reduced(*t),
        }) && is_reduced_alts(*rest),
    }
}

/// A canonical chunk list holding fully reduced holes: no empty fixed-text
/// chunk, no two adjacent fixed-text chunks, and no hole that is itself a
/// text literal.
pub open spec fn is_canon_texts(ts: Texts) -> bool
    decreases ts,
{
    match ts {
        Texts::Nil => true,
        Texts::Text(s, rest) => !(s is Nil) && !(*rest is Text) && is_canon_texts(*rest),
        Texts::Interp(e, rest) => is_reduced(*e) && !(*e is TextLit) && is_canon_texts(*rest),
    }
}

/// Normalization does not move a term of the shape [`is_reduced`]
/// covers, whatever the budget.
pub proof fn lemma_normalize_fixes_reduced(e: Expr, fuel: nat)
    requires
        is_reduced(e),
    ensures
        nrm(e, fuel) == e,
    decreases e,
{
    match e {
        Expr::Lam(_, t, b) => {
            lemma_normalize_fixes_reduced(*t, fuel);
            lemma_normalize_fixes_reduced(*b, fuel);
        },
        Expr::Pi(_, t, b) => {
            lemma_normalize_fixes_reduced(*t, fuel);
            lemma_normalize_fixes_reduced(*b, fuel);
        },
        Expr::EmptyListLit(t) => {
            lemma_normalize_fixes_reduced(*t, fuel);
        },
        Expr::NEListLit(xs) => {
            lemma_normalize_fixes_reduced_exprs(xs, fuel);
        },
        Expr::SomeLit(x) => {
            lemma_normalize_fixes_reduced(*x, fuel);
        },
        Expr::Record(fs) => {
            lemma_normalize_fixes_reduced_fields(fs, fuel);
        },
        Expr::RecordLit(fs) => {
            lemma_normalize_fixes_reduced_fields(fs, fuel);
        },
        Expr::Union(alts) => {
            lemma_normalize_fixes_reduced_alts(alts, fuel);
        },
        Expr::UnionLit(_, x, alts) => {
            lemma_normalize_fixes_reduced(*x, fuel);
            lemma_normalize_fixes_reduced_alts(alts, fuel);
        },
        Expr::TextLit(ts) => {
            lemma_normalize_fixes_canon_texts(ts, fuel);
        },
        Expr::App(f, a) => {
            lemma_normalize_fixes_reduced(*f, fuel);
            lemma_normalize_fixes_reduced(*a, fuel);
            assert(app_val(*f, *a, fuel) == e);
        },
        Expr::Field(r, _) => {
            lemma_normalize_fixes_reduced(*r, fuel);
        },
        Expr::Projection(r, _) => {
            lemma_normalize_fixes_reduced(*r, fuel);
        },
        Expr::BoolIf(c, x, y) => {
            lemma_normalize_fixes_reduced(*c, fuel);
            lemma_normalize_fixes_reduced(*x, fuel);
            lemma_normalize_fixes_reduced(*y, fuel);
        },
        _ => {},
    }
}

proof fn lemma_normalize_fixes_reduced_exprs(xs: Exprs, fuel: nat)
    requires
        is_reduced_exprs(xs),
    ensures
        nrm_exprs(xs, fuel) == xs,
    decreases xs,
{
    match xs {
        Exprs::Nil => {},
        Exprs::Cons(x, rest) => {
            lemma_normalize_fixes_reduced(*x, fuel);
            lemma_normalize_fixes_reduced_exprs(*rest, fuel);
        },
    }
}

proof fn lemma_normalize_fixes_reduced_fields(fs: Fields, fuel: nat)
    requires
        is_reduced_fields(fs),
    ensures
        nrm_fields(fs, fuel) == fs,
    decreases fs,
{
    match fs {
        Fields::Nil => {},
        Fields::Cons(_, v, rest) => {
            lemma_normalize_fixes_reduced(*v, fuel);
            lemma_normalize_fixes_reduced_fields(*rest, fuel);
        },
    }
}

proof fn lemma_normalize_fixes_reduced_alts(alts: Alts, fuel: nat)
    requires
        is_reduced_alts(alts),
    ensures
        nrm_alts(alts, fuel) == alts,
    decreases alts,
{
    match alts {
        Alts::Nil => {},
        Alts::Cons(_, v, rest) => {
            match v {
                Option::None => {
                    assert(nrm_opt(v, fuel) == v);
                },
                Option::Some(t) => {
                    lemma_normalize_fixes_reduced(*t, fuel);
                    assert(nrm_opt(v, fuel) == Option::Some(Box::new(nrm(*t, fuel))));
                    assert(nrm_opt(v, fuel) == v);
                },
            }
            lemma_normalize_fixes_reduced_alts(*rest, fuel);
        },
    }
}

proof fn lemma_normalize_fixes_canon_texts(ts: Texts, fuel: nat)
    requires
        is_canon_texts(ts),
    ensures
        nrm_texts(ts, fuel) == ts,
        texts_canon(ts) == ts,
    decreases ts,
{
    match ts {
        Texts::Nil => {},
        Texts::Text(s, rest) => {
            lemma_normalize_fixes_canon_texts(*rest, fuel);
            assert(texts_cons_text(s, *rest) == ts);
        },
        Texts::Interp(e, rest) => {
            lemma_normalize_fixes_reduced(*e, fuel);
            lemma_normalize_fixes_canon_texts(*rest, fuel);
        },
    }
}

/// Normalization idempotence: a second pass, with any budget, does not
/// move the result of a first pass that reached a shape [`is_reduced`]
/// covers.  A normal form holding one of the rarer stuck computations
/// (say, a partially applied built-in) is outside the stated shape.
pub proof fn lemma_normalize_idempotent(e: Expr, fuel: nat, fuel2: nat)
    requires
        is_reduced(nrm(e, fuel)),
    ensures
        nrm(nrm(e, fuel), fuel2) == nrm(e, fuel),
{
    lemma_normalize_fixes_reduced(nrm(e, fuel), fuel2);
}

} // verus!
