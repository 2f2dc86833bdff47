//! The bidirectional type checker and its judgmental equality.
//!
//! `type_with` infers the type of an expression under a context, one case
//! per node kind, using the normalizer to inspect the head constructor of
//! the types it computes.  Judgmental equality normalizes both sides fully
//! and compares them up to a renaming of the names bound by corresponding
//! dependent function types.
//!
//! A few typing steps recurse on a type that was just inferred rather than
//! on a sub-term, so the checker carries the same kind of recursion budget
//! as the normalizer; exhausting it reports a dedicated error.

use vstd::prelude::*;
use vstd::string::StringExecFns;

use crate::expr::{Alts, Chars, Expr, Exprs, Fields, Labels, Var};
use crate::expr::{chars_clone, chars_eq, clone_expr, clone_fields, expr_eq};
use crate::normalize::{nrm, normalize_with_fuel};
use crate::subst::subst_expr;

verus! {

/// The lexical environment of the type checker: a persistent map from
/// names to the types of the bound variables, most recent entry first,
/// with de-Bruijn-indexed lookup among entries of one name.
///
/// Insertion builds a new context and leaves the old one untouched, so a
/// context can be shared across independent recursive branches.
#[derive(Debug, PartialEq, Eq)]
pub struct Context {
    pub entries: Fields,
}

/// The entry for `v` in a context: the `v.idx`-th most recent entry whose
/// name is `v.name`.
pub open spec fn ctx_lookup(fs: Fields, v: Var) -> Option<Expr>
    decreases fs,
{
    match fs {
        Fields::Nil => Option::None,
        Fields::Cons(k, t, rest) => if k == v.name {
            if v.idx == 0 {
                Option::Some(*t)
            } else {
                ctx_lookup(*rest, Var { name: v.name, idx: (v.idx - 1) as u64 })
            }
        } else {
            ctx_lookup(*rest, v)
        },
    }
}

impl Context {
    /// The empty context.
    pub fn new() -> (res: Context)
        ensures
            res.entries == Fields::Nil,
    {
        Context { entries: Fields::Nil }
    }

    /// A new context with `x` bound to `t` in front of the old entries;
    /// the old context is not changed.
    pub fn insert(&self, x: &Chars, t: Expr) -> (res: Context)
        ensures
            res.entries == Fields::Cons(*x, Box::new(t), Box::new(self.entries)),
    {
        Context {
            entries: Fields::Cons(chars_clone(x), Box::new(t), Box::new(clone_fields(&self.entries))),
        }
    }

    /// A new context for the body of a binder named `x` with domain type
    /// `t`: `x` is bound to `t` and every entry, the new one included, is
    /// shifted into the deeper scope.
    pub fn insert_shift(&self, x: &Chars, t: Expr) -> (res: Context)
        ensures
            res.entries == crate::subst::shift_fields(
                1i64,
                Var { name: *x, idx: 0 },
                Fields::Cons(*x, Box::new(t), Box::new(self.entries)),
            ),
    {
        let v = Var { name: chars_clone(x), idx: 0 };
        let fs = Fields::Cons(chars_clone(x), Box::new(t), Box::new(clone_fields(&self.entries)));
        Context { entries: shift_fields_exec(&v, fs) }
    }

    /// The type bound for `v`, if `v` is in scope.
    pub fn lookup(&self, v: &Var) -> (res: Option<Expr>)
        ensures
            res == ctx_lookup(self.entries, *v),
    {
        lookup_exec(&self.entries, v)
    }

    /// An equal, independent copy of the context.
    pub fn duplicate(&self) -> (res: Context)
        ensures
            res == *self,
    {
        Context { entries: clone_fields(&self.entries) }
    }
}

fn lookup_exec(fs: &Fields, v: &Var) -> (res: Option<Expr>)
    ensures
        res == ctx_lookup(*fs, *v),
    decreases *fs,
{
    match fs {
        Fields::Nil => Option::None,
        Fields::Cons(k, t, rest) => if chars_eq(k, &v.name) {
            if v.idx == 0 {
                Option::Some(clone_expr(t))
            } else {
                let v2 = Var { name: chars_clone(&v.name), idx: v.idx - 1 };
                lookup_exec(rest, &v2)
            }
        } else {
            lookup_exec(rest, v)
        },
    }
}

fn shift_fields_exec(v: &Var, fs: Fields) -> (res: Fields)
    ensures
        res == crate::subst::shift_fields(1i64, *v, fs),
    decreases fs,
{
    match fs {
        Fields::Nil => Fields::Nil,
        Fields::Cons(k, t, rest) => Fields::Cons(
            k,
            Box::new(crate::subst::shift(1, v, &t)),
            Box::new(shift_fields_exec(v, *rest)),
        ),
    }
}

/// The stack of paired bound names that judgmental equality pushes when it
/// descends under corresponding dependent function types.
#[derive(Debug, PartialEq, Eq)]
pub enum NamePairs {
    Nil,
    Cons(Chars, Chars, Box<NamePairs>),
}

/// Whether two variable references denote the same binder under the stack
/// of paired bound names: the references are equal when both are bound by
/// the same entry, at the matching de-Bruijn depth; once the stack is
/// exhausted they must agree on name and index.
///
/// A reference bound by the current entry (its name is that side of the
/// pair and its index is zero) can never be equal to one that points past
/// it, so when exactly one side is bound here the walk stops with `false`;
/// past the entry, an index whose name matches is carried one lower, which
/// cannot reach below zero.
pub open spec fn match_vars(vl: Var, vr: Var, ctx: NamePairs) -> bool
    decreases ctx,
{
    match ctx {
        NamePairs::Nil => vl == vr,
        NamePairs::Cons(xl, xr, rest) => {
            let bound_l = vl.name == xl && vl.idx == 0;
            let bound_r = vr.name == xr && vr.idx == 0;
            if bound_l || bound_r {
                bound_l && bound_r
            } else {
                let nl: u64 = if vl.name == xl {
                    (vl.idx - 1) as u64
                } else {
                    vl.idx
                };
                let nr: u64 = if vr.name == xr {
                    (vr.idx - 1) as u64
                } else {
                    vr.idx
                };
                match_vars(Var { name: vl.name, idx: nl }, Var { name: vr.name, idx: nr }, *rest)
            }
        },
    }
}

/// Alpha-equivalence of two normal forms under a renaming stack: the
/// comparison the type checker uses on types.  Corresponding `Pi` binders
/// are paired on the stack; record fields and union alternatives must
/// match in count and in key order; lambdas and the remaining term-level
/// constructors compare structurally without binder pairing, as only types
/// are ever compared here.
pub open spec fn alpha_eq(el: Expr, er: Expr, ctx: NamePairs) -> bool
    decreases el,
{
    match (el, er) {
        (Expr::Const(a), Expr::Const(b)) => a == b,
        (Expr::Var(vl), Expr::Var(vr)) => match_vars(vl, vr, ctx),
        (Expr::Pi(xl, tl, bl), Expr::Pi(xr, tr, br)) => alpha_eq(*tl, *tr, ctx) && alpha_eq(
            *bl,
            *br,
            NamePairs::Cons(xl, xr, Box::new(ctx)),
        ),
        (Expr::App(fl, al), Expr::App(fr, ar)) => alpha_eq(*fl, *fr, ctx) && alpha_eq(
            *al,
            *ar,
            ctx,
        ),
        (Expr::Builtin(a), Expr::Builtin(b)) => a == b,
        (Expr::Record(fl), Expr::Record(fr)) => alpha_eq_fields(fl, fr, ctx),
        (Expr::RecordLit(fl), Expr::RecordLit(fr)) => alpha_eq_fields(fl, fr, ctx),
        (Expr::Union(al), Expr::Union(ar)) => alpha_eq_alts(al, ar, ctx),
        (Expr::BoolLit(a), Expr::BoolLit(b)) => a == b,
        (Expr::NaturalLit(a), Expr::NaturalLit(b)) => a == b,
        (Expr::IntegerLit(a), Expr::IntegerLit(b)) => a == b,
        (Expr::DoubleLit(a), Expr::DoubleLit(b)) => a == b,
        _ => false,
    }
}

/// Pairwise alpha-equivalence of two field lists: same length, same keys
/// in the same order, equivalent values.
pub open spec fn alpha_eq_fields(fl: Fields, fr: Fields, ctx: NamePairs) -> bool
    decreases fl,
{
    match (fl, fr) {
        (Fields::Nil, Fields::Nil) => true,
        (Fields::Cons(kl, vl, rl), Fields::Cons(kr, vr, rr)) => kl == kr && alpha_eq(*vl, *vr, ctx)
            && alpha_eq_fields(*rl, *rr, ctx),
        _ => false,
    }
}

/// Pairwise alpha-equivalence of two alternative lists.
pub open spec fn alpha_eq_alts(al: Alts, ar: Alts, ctx: NamePairs) -> bool
    decreases al,
{
    match (al, ar) {
        (Alts::Nil, Alts::Nil) => true,
        (Alts::Cons(kl, vl, rl), Alts::Cons(kr, vr, rr)) => kl == kr && (match (vl, vr) {
            (Option::None, Option::None) => true,
            (Option::Some(tl), Option::Some(tr)) => alpha_eq(*tl, *tr, ctx),
            _ => false,
        }) && alpha_eq_alts(*rl, *rr, ctx),
        _ => false,
    }
}

/// Judgmental equality with an explicit budget: normalize both sides fully
/// and compare the normal forms up to alpha-renaming.
pub open spec fn judg_eq(a: Expr, b: Expr, fuel: nat) -> bool {
    alpha_eq(nrm(a, fuel), nrm(b, fuel), NamePairs::Nil)
}

fn match_vars_exec(vl: &Var, vr: &Var, ctx: &NamePairs) -> (res: bool)
    ensures
        res == match_vars(*vl, *vr, *ctx),
    decreases *ctx,
{
    match ctx {
        NamePairs::Nil => chars_eq(&vl.name, &vr.name) && vl.idx == vr.idx,
        NamePairs::Cons(xl, xr, rest) => {
            let name_l = chars_eq(&vl.name, xl);
            let name_r = chars_eq(&vr.name, xr);
            let bound_l = name_l && vl.idx == 0;
            let bound_r = name_r && vr.idx == 0;
            if bound_l || bound_r {
                bound_l && bound_r
            } else {
                let nl: u64 = if name_l {
                    vl.idx - 1
                } else {
                    vl.idx
                };
                let nr: u64 = if name_r {
                    vr.idx - 1
                } else {
                    vr.idx
                };
                let vl2 = Var { name: chars_clone(&vl.name), idx: nl };
                let vr2 = Var { name: chars_clone(&vr.name), idx: nr };
                match_vars_exec(&vl2, &vr2, rest)
            }
        },
    }
}

fn alpha_eq_exec(el: &Expr, er: &Expr, ctx: &NamePairs) -> (res: bool)
    ensures
        res == alpha_eq(*el, *er, *ctx),
    decreases *el,
{
    match (el, er) {
        (Expr::Const(a), Expr::Const(b)) => *a == *b,
        (Expr::Var(vl), Expr::Var(vr)) => match_vars_exec(vl, vr, ctx),
        (Expr::Pi(xl, tl, bl), Expr::Pi(xr, tr, br)) => {
            if alpha_eq_exec(tl, tr, ctx) {
                let ctx2 = NamePairs::Cons(
                    chars_clone(xl),
                    chars_clone(xr),
                    Box::new(clone_name_pairs(ctx)),
                );
                alpha_eq_exec(bl, br, &ctx2)
            } else {
                false
            }
        },
        (Expr::App(fl, al), Expr::App(fr, ar)) => alpha_eq_exec(fl, fr, ctx) && alpha_eq_exec(
            al,
            ar,
            ctx,
        ),
        (Expr::Builtin(a), Expr::Builtin(b)) => *a == *b,
        (Expr::Record(fl), Expr::Record(fr)) => alpha_eq_fields_exec(fl, fr, ctx),
        (Expr::RecordLit(fl), Expr::RecordLit(fr)) => alpha_eq_fields_exec(fl, fr, ctx),
        (Expr::Union(al), Expr::Union(ar)) => alpha_eq_alts_exec(al, ar, ctx),
        (Expr::BoolLit(a), Expr::BoolLit(b)) => *a == *b,
        (Expr::NaturalLit(a), Expr::NaturalLit(b)) => *a == *b,
        (Expr::IntegerLit(a), Expr::IntegerLit(b)) => *a == *b,
        (Expr::DoubleLit(a), Expr::DoubleLit(b)) => *a == *b,
        _ => false,
    }
}

fn clone_name_pairs(ctx: &NamePairs) -> (res: NamePairs)
    ensures
        res == *ctx,
    decreases *ctx,
{
    match ctx {
        NamePairs::Nil => NamePairs::Nil,
        NamePairs::Cons(a, b, rest) => NamePairs::Cons(
            chars_clone(a),
            chars_clone(b),
            Box::new(clone_name_pairs(rest)),
        ),
    }
}

fn alpha_eq_fields_exec(fl: &Fields, fr: &Fields, ctx: &NamePairs) -> (res: bool)
    ensures
        res == alpha_eq_fields(*fl, *fr, *ctx),
    decreases *fl,
{
    match (fl, fr) {
        (Fields::Nil, Fields::Nil) => true,
        (Fields::Cons(kl, vl, rl), Fields::Cons(kr, vr, rr)) => chars_eq(kl, kr) && alpha_eq_exec(
            vl,
            vr,
            ctx,
        ) && alpha_eq_fields_exec(rl, rr, ctx),
        _ => false,
    }
}

fn alpha_eq_alts_exec(al: &Alts, ar: &Alts, ctx: &NamePairs) -> (res: bool)
    ensures
        res == alpha_eq_alts(*al, *ar, *ctx),
    decreases *al,
{
    match (al, ar) {
        (Alts::Nil, Alts::Nil) => true,
        (Alts::Cons(kl, vl, rl), Alts::Cons(kr, vr, rr)) => chars_eq(kl, kr) && (match (vl, vr) {
            (Option::None, Option::None) => true,
            (Option::Some(tl), Option::Some(tr)) => alpha_eq_exec(tl, tr, ctx),
            _ => false,
        }) && alpha_eq_alts_exec(rl, rr, ctx),
        _ => false,
    }
}

/// Decides judgmental equality: normalizes both sides fully with the
/// checker's budget and compares the normal forms up to alpha-renaming.
pub fn prop_equal(a: &Expr, b: &Expr) -> (res: bool)
    ensures
        res == judg_eq(*a, *b, crate::normalize::NORMALIZE_FUEL as nat),
{
    let an = normalize_with_fuel(a, crate::normalize::NORMALIZE_FUEL);
    let bn = normalize_with_fuel(b, crate::normalize::NORMALIZE_FUEL);
    alpha_eq_exec(&an, &bn, &NamePairs::Nil)
}

} // verus!

verus! {

/// The specific type error, carrying the offending sub-terms.
#[derive(Debug, PartialEq, Eq)]
pub enum TypeMessage {
    UnboundVariable,
    InvalidInputType(Expr),
    InvalidOutputType(Expr),
    NotAFunction(Expr, Expr),
    TypeMismatch(Expr, Expr, Expr, Expr),
    AnnotMismatch(Expr, Expr, Expr),
    Untyped,
    InvalidListElement(u64, Expr, Expr, Expr),
    InvalidListType(Expr),
    InvalidOptionalElement(Expr, Expr, Expr),
    InvalidOptionalLiteral(u64),
    InvalidOptionalType(Expr),
    InvalidPredicate(Expr, Expr),
    IfBranchMismatch(Expr, Expr, Expr, Expr),
    IfBranchMustBeTerm(bool, Expr, Expr, Expr),
    InvalidField(Chars, Expr),
    InvalidFieldType(Chars, Expr),
    InvalidAlternativeType(Chars, Expr),
    DuplicateAlternative(Chars),
    MustMergeARecord(Expr, Expr),
    MustMergeUnion(Expr, Expr),
    UnusedHandler(Labels),
    MissingHandler(Labels),
    HandlerInputTypeMismatch(Chars, Expr, Expr),
    HandlerOutputTypeMismatch(Chars, Expr, Expr),
    HandlerNotAFunction(Chars, Expr),
    NotARecord(Chars, Expr, Expr),
    MissingField(Chars, Expr),
    CantAnd(Expr, Expr),
    CantOr(Expr, Expr),
    CantEQ(Expr, Expr),
    CantNE(Expr, Expr),
    CantTextAppend(Expr, Expr),
    CantListAppend(Expr, Expr),
    CantAdd(Expr, Expr),
    CantMultiply(Expr, Expr),
    NoDependentLet(Expr, Expr),
    NoDependentTypes(Expr, Expr),
    /// The checker's recursion budget ran out before a verdict.
    RecursionLimit,
}

/// The text [`TypeMessage::description`] returns for each error family.
pub open spec fn description_text(m: TypeMessage) -> Seq<char> {
    match m {
        TypeMessage::UnboundVariable => "Unbound variable"@,
        TypeMessage::InvalidInputType(_) => "Invalid function input"@,
        TypeMessage::InvalidOutputType(_) => "Invalid function output"@,
        TypeMessage::NotAFunction(_, _) => "Not a function"@,
        TypeMessage::TypeMismatch(_, _, _, _) => "Wrong type of function argument"@,
        _ => "Unhandled error"@,
    }
}

impl TypeMessage {
    /// A short description of the error family.
    pub fn description(&self) -> (res: String)
        ensures
            res@ == description_text(*self),
    {
        match self {
            TypeMessage::UnboundVariable => String::from_str("Unbound variable"),
            TypeMessage::InvalidInputType(_) => String::from_str("Invalid function input"),
            TypeMessage::InvalidOutputType(_) => String::from_str("Invalid function output"),
            TypeMessage::NotAFunction(_, _) => String::from_str("Not a function"),
            TypeMessage::TypeMismatch(_, _, _, _) => String::from_str(
                "Wrong type of function argument",
            ),
            _ => String::from_str("Unhandled error"),
        }
    }
}

/// A structured type error: the context at the point of failure, the
/// offending sub-term, and the specific message.
#[derive(Debug, PartialEq, Eq)]
pub struct TypeError {
    pub context: Context,
    pub current: Expr,
    pub type_message: TypeMessage,
}

/// Builds the error value [`TypeError::new`] returns.
pub open spec fn terr(ctx: Context, cur: Expr, m: TypeMessage) -> TypeError {
    TypeError { context: ctx, current: cur, type_message: m }
}

impl TypeError {
    /// Packages a type error with the context and sub-term it arose at.
    pub fn new(context: &Context, current: &Expr, type_message: TypeMessage) -> (res: TypeError)
        ensures
            res == terr(*context, *current, type_message),
    {
        TypeError {
            context: context.duplicate(),
            current: clone_expr(current),
            type_message,
        }
    }
}

/// The normalization budget the checker hands to judgmental equality.
pub open spec fn nf_fuel() -> nat {
    crate::normalize::NORMALIZE_FUEL as nat
}

/// Normal form with the checker's budget.
pub open spec fn nf(e: Expr) -> Expr {
    nrm(e, nf_fuel())
}

/// Judgmental equality with the checker's budget.
pub open spec fn jeq(a: Expr, b: Expr) -> bool {
    judg_eq(a, b, nf_fuel())
}

/// The successor axiom of the universe constants: each stratum is typed by
/// the next one; the topmost has no type.
pub open spec fn axiom_const(c: crate::expr::Const) -> Option<crate::expr::Const> {
    match c {
        crate::expr::Const::Type => Option::Some(crate::expr::Const::Kind),
        crate::expr::Const::Kind => Option::Some(crate::expr::Const::Sort),
        crate::expr::Const::Sort => Option::None,
    }
}

/// The rank of a universe constant in the stratification.
pub open spec fn const_order(c: crate::expr::Const) -> int {
    match c {
        crate::expr::Const::Type => 0int,
        crate::expr::Const::Kind => 1int,
        crate::expr::Const::Sort => 2int,
    }
}

/// The product rule for a function type whose domain is classified by `a`
/// and codomain by `b`: a term-level result may depend on anything, and
/// the one disallowed combination is a type-level codomain depending on a
/// term-level domain.
pub open spec fn rule_const(
    a: crate::expr::Const,
    b: crate::expr::Const,
) -> Option<crate::expr::Const> {
    if b == crate::expr::Const::Type {
        Option::Some(crate::expr::Const::Type)
    } else if a == crate::expr::Const::Type {
        Option::None
    } else if const_order(a) >= const_order(b) {
        Option::Some(a)
    } else {
        Option::Some(b)
    }
}

} // verus!

verus! {

/// The conventional throwaway binder name.
pub open spec fn name_us() -> Chars {
    Chars::Cons('_', Box::new(Chars::Nil))
}

/// The binder name `a` of the built-in signatures.
pub open spec fn name_a() -> Chars {
    Chars::Cons('a', Box::new(Chars::Nil))
}

/// The binder name `b` of the built-in signatures.
pub open spec fn name_b() -> Chars {
    Chars::Cons('b', Box::new(Chars::Nil))
}

/// A dependent function type node.
pub open spec fn pi_(x: Chars, a: Expr, b: Expr) -> Expr {
    Expr::Pi(x, Box::new(a), Box::new(b))
}

/// An application node.
pub open spec fn ap_(f: Expr, a: Expr) -> Expr {
    Expr::App(Box::new(f), Box::new(a))
}

/// The variable `a` at depth zero.
pub open spec fn var_a() -> Expr {
    Expr::Var(Var { name: name_a(), idx: 0 })
}

/// The variable `b` at depth zero.
pub open spec fn var_b() -> Expr {
    Expr::Var(Var { name: name_b(), idx: 0 })
}

/// The fixed polymorphic signature of each built-in identifier.
pub open spec fn builtin_type(b: crate::expr::Builtin) -> Expr {
    let ty = Expr::Const(crate::expr::Const::Type);
    let natural = Expr::Builtin(crate::expr::Builtin::Natural);
    let bool_t = Expr::Builtin(crate::expr::Builtin::Bool);
    let text = Expr::Builtin(crate::expr::Builtin::Text);
    let integer = Expr::Builtin(crate::expr::Builtin::Integer);
    let double = Expr::Builtin(crate::expr::Builtin::Double);
    let list = Expr::Builtin(crate::expr::Builtin::List);
    let optional = Expr::Builtin(crate::expr::Builtin::Optional);
    // \(b : Type) -> (a -> b -> b) -> b -> b, the Church list consumer.
    let church_list = pi_(
        name_b(),
        ty,
        pi_(
            name_us(),
            pi_(name_us(), var_a(), pi_(name_us(), var_b(), var_b())),
            pi_(name_us(), var_b(), var_b()),
        ),
    );
    // \(b : Type) -> (a -> b) -> b -> b, the Church optional consumer.
    let church_opt = pi_(
        name_b(),
        ty,
        pi_(name_us(), pi_(name_us(), var_a(), var_b()), pi_(name_us(), var_b(), var_b())),
    );
    // \(a : Type) -> (a -> a) -> a -> a, the Church natural consumer.
    let church_nat = pi_(
        name_a(),
        ty,
        pi_(name_us(), pi_(name_us(), var_a(), var_a()), pi_(name_us(), var_a(), var_a())),
    );
    match b {
        crate::expr::Builtin::Bool => ty,
        crate::expr::Builtin::Natural => ty,
        crate::expr::Builtin::Integer => ty,
        crate::expr::Builtin::Double => ty,
        crate::expr::Builtin::Text => ty,
        crate::expr::Builtin::List => pi_(name_us(), ty, ty),
        crate::expr::Builtin::Optional => pi_(name_us(), ty, ty),
        crate::expr::Builtin::OptionalNone => pi_(name_a(), ty, ap_(optional, var_a())),
        crate::expr::Builtin::NaturalBuild => pi_(name_us(), church_nat, natural),
        crate::expr::Builtin::NaturalFold => pi_(name_us(), natural, church_nat),
        crate::expr::Builtin::NaturalIsZero => pi_(name_us(), natural, bool_t),
        crate::expr::Builtin::NaturalEven => pi_(name_us(), natural, bool_t),
        crate::expr::Builtin::NaturalOdd => pi_(name_us(), natural, bool_t),
        crate::expr::Builtin::NaturalToInteger => pi_(name_us(), natural, integer),
        crate::expr::Builtin::NaturalShow => pi_(name_us(), natural, text),
        crate::expr::Builtin::IntegerToDouble => pi_(name_us(), integer, double),
        crate::expr::Builtin::IntegerShow => pi_(name_us(), integer, text),
        crate::expr::Builtin::DoubleShow => pi_(name_us(), double, text),
        crate::expr::Builtin::ListBuild => pi_(
            name_a(),
            ty,
            pi_(name_us(), church_list, ap_(list, var_a())),
        ),
        crate::expr::Builtin::ListFold => pi_(
            name_a(),
            ty,
            pi_(name_us(), ap_(list, var_a()), church_list),
        ),
        crate::expr::Builtin::ListLength => pi_(
            name_a(),
            ty,
            pi_(name_us(), ap_(list, var_a()), natural),
        ),
        crate::expr::Builtin::ListHead => pi_(
            name_a(),
            ty,
            pi_(name_us(), ap_(list, var_a()), ap_(optional, var_a())),
        ),
        crate::expr::Builtin::ListLast => pi_(
            name_a(),
            ty,
            pi_(name_us(), ap_(list, var_a()), ap_(optional, var_a())),
        ),
        crate::expr::Builtin::ListIndexed => pi_(
            name_a(),
            ty,
            pi_(
                name_us(),
                ap_(list, var_a()),
                ap_(list, crate::normalize::indexed_record_type(var_a())),
            ),
        ),
        crate::expr::Builtin::ListReverse => pi_(
            name_a(),
            ty,
            pi_(name_us(), ap_(list, var_a()), ap_(list, var_a())),
        ),
        crate::expr::Builtin::OptionalFold => pi_(
            name_a(),
            ty,
            pi_(name_us(), ap_(optional, var_a()), church_opt),
        ),
        crate::expr::Builtin::OptionalBuild => pi_(
            name_a(),
            ty,
            pi_(name_us(), church_opt, ap_(optional, var_a())),
        ),
        crate::expr::Builtin::TextShow => pi_(name_us(), text, text),
    }
}

/// Infers the type of `e` under `ctx`, spending at most `fuel` recursion
/// steps on types that the checker itself computes.  The result is the
/// inferred type, not necessarily normalized, or the first error the
/// checker meets.
pub open spec fn tck(ctx: Context, e: Expr, fuel: nat) -> Result<Expr, TypeError>
    decreases fuel, e, 1int,
{
    let ty = Expr::Const(crate::expr::Const::Type);
    match e {
        Expr::Const(c) => match axiom_const(c) {
            Option::Some(k) => Result::Ok(Expr::Const(k)),
            Option::None => Result::Err(terr(ctx, e, TypeMessage::Untyped)),
        },
        Expr::Var(v) => match ctx_lookup(ctx.entries, v) {
            Option::Some(t) => Result::Ok(t),
            Option::None => Result::Err(terr(ctx, e, TypeMessage::UnboundVariable)),
        },
        Expr::Lam(x, t, b) => {
            let ctx2 = Context {
                entries: crate::subst::shift_fields(
                    1i64,
                    Var { name: x, idx: 0 },
                    Fields::Cons(x, t, Box::new(ctx.entries)),
                ),
            };
            match tck(ctx2, *b, fuel) {
                Result::Err(err) => Result::Err(err),
                Result::Ok(tb) => {
                    let p = Expr::Pi(x, t, Box::new(tb));
                    if fuel > 0 {
                        match tck(ctx, p, (fuel - 1) as nat) {
                            Result::Err(err) => Result::Err(err),
                            Result::Ok(_) => Result::Ok(p),
                        }
                    } else {
                        Result::Err(terr(ctx, e, TypeMessage::RecursionLimit))
                    }
                },
            }
        },
        Expr::Pi(x, t, b) => match tck(ctx, *t, fuel) {
            Result::Err(err) => Result::Err(err),
            Result::Ok(tt) => match nf(tt) {
                Expr::Const(ka) => {
                    let ctx2 = Context {
                        entries: crate::subst::shift_fields(
                            1i64,
                            Var { name: x, idx: 0 },
                            Fields::Cons(x, t, Box::new(ctx.entries)),
                        ),
                    };
                    match tck(ctx2, *b, fuel) {
                        Result::Err(err) => Result::Err(err),
                        Result::Ok(tb) => match nf(tb) {
                            Expr::Const(kb) => match rule_const(ka, kb) {
                                Option::Some(k) => Result::Ok(Expr::Const(k)),
                                Option::None => Result::Err(
                                    terr(ctx, e, TypeMessage::NoDependentTypes(*t, Expr::Const(kb))),
                                ),
                            },
                            other => Result::Err(
                                terr(ctx2, e, TypeMessage::InvalidOutputType(other)),
                            ),
                        },
                    }
                },
                other => Result::Err(terr(ctx, e, TypeMessage::InvalidInputType(*t))),
            },
        },
        Expr::App(f, a) => match tck(ctx, *f, fuel) {
            Result::Err(err) => Result::Err(err),
            Result::Ok(tf) => match nf(tf) {
                Expr::Pi(x, ta, tb) => match tck(ctx, *a, fuel) {
                    Result::Err(err) => Result::Err(err),
                    Result::Ok(ta2) => if jeq(*ta, ta2) {
                        Result::Ok(subst_expr(Var { name: x, idx: 0 }, *a, *tb))
                    } else {
                        Result::Err(
                            terr(ctx, e, TypeMessage::TypeMismatch(*f, nf(*ta), *a, nf(ta2))),
                        )
                    },
                },
                other => Result::Err(terr(ctx, e, TypeMessage::NotAFunction(*f, other))),
            },
        },
        Expr::Let(x, mt, r, b) => match tck(ctx, *r, fuel) {
            Result::Err(err) => Result::Err(err),
            Result::Ok(tr) => if fuel <= 0 {
                Result::Err(terr(ctx, e, TypeMessage::RecursionLimit))
            } else {
                match tck(ctx, tr, (fuel - 1) as nat) {
                    Result::Err(err) => Result::Err(err),
                    Result::Ok(ttr) => match nf(ttr) {
                        Expr::Const(kr) => {
                            let ctx2 = Context {
                                entries: Fields::Cons(x, Box::new(tr), Box::new(ctx.entries)),
                            };
                            match tck(ctx2, *b, fuel) {
                                Result::Err(err) => Result::Err(err),
                                Result::Ok(tb) => match tck(ctx, tb, (fuel - 1) as nat) {
                                    Result::Err(err) => Result::Err(err),
                                    Result::Ok(ttb) => match nf(ttb) {
                                        Expr::Const(kb) => if rule_const(kr, kb) is None {
                                            Result::Err(
                                                terr(ctx, e, TypeMessage::NoDependentLet(tr, tb)),
                                            )
                                        } else {
                                            match mt {
                                                Option::None => Result::Ok(tb),
                                                Option::Some(ann) => if jeq(nf(tr), nf(*ann)) {
                                                    Result::Ok(tb)
                                                } else {
                                                    Result::Err(
                                                        terr(
                                                            ctx,
                                                            e,
                                                            TypeMessage::AnnotMismatch(
                                                                *r,
                                                                nf(*ann),
                                                                nf(tr),
                                                            ),
                                                        ),
                                                    )
                                                },
                                            }
                                        },
                                        other => Result::Err(
                                            terr(ctx, e, TypeMessage::InvalidOutputType(tb)),
                                        ),
                                    },
                                },
                            }
                        },
                        other => Result::Err(terr(ctx, e, TypeMessage::InvalidInputType(tr))),
                    },
                }
            },
        },
        Expr::Annot(x, t) => match tck(ctx, *t, fuel) {
            Result::Err(err) => Result::Err(err),
            Result::Ok(_) => match tck(ctx, *x, fuel) {
                Result::Err(err) => Result::Err(err),
                Result::Ok(t2) => if jeq(*t, t2) {
                    Result::Ok(*t)
                } else {
                    Result::Err(terr(ctx, e, TypeMessage::AnnotMismatch(*x, nf(*t), nf(t2))))
                },
            },
        },
        Expr::Builtin(b) => Result::Ok(builtin_type(b)),
        Expr::BoolLit(_) => Result::Ok(Expr::Builtin(crate::expr::Builtin::Bool)),
        Expr::BoolIf(c, y, z) => match tck(ctx, *c, fuel) {
            Result::Err(err) => Result::Err(err),
            Result::Ok(tc) => if nf(tc) != Expr::Builtin(crate::expr::Builtin::Bool) {
                Result::Err(terr(ctx, e, TypeMessage::InvalidPredicate(*c, nf(tc))))
            } else {
                match tck(ctx, *y, fuel) {
                    Result::Err(err) => Result::Err(err),
                    Result::Ok(ty1) => if fuel <= 0 {
                        Result::Err(terr(ctx, e, TypeMessage::RecursionLimit))
                    } else {
                        match tck(ctx, nf(ty1), (fuel - 1) as nat) {
                            Result::Err(err) => Result::Err(err),
                            Result::Ok(tty) => if nf(tty) != ty {
                                Result::Err(
                                    terr(
                                        ctx,
                                        e,
                                        TypeMessage::IfBranchMustBeTerm(true, *y, nf(ty1), nf(tty)),
                                    ),
                                )
                            } else {
                                match tck(ctx, *z, fuel) {
                                    Result::Err(err) => Result::Err(err),
                                    Result::Ok(tz) => match tck(ctx, nf(tz), (fuel - 1) as nat) {
                                        Result::Err(err) => Result::Err(err),
                                        Result::Ok(ttz) => if nf(ttz) != ty {
                                            Result::Err(
                                                terr(
                                                    ctx,
                                                    e,
                                                    TypeMessage::IfBranchMustBeTerm(
                                                        false,
                                                        *z,
                                                        nf(tz),
                                                        nf(ttz),
                                                    ),
                                                ),
                                            )
                                        } else if !jeq(nf(ty1), nf(tz)) {
                                            Result::Err(
                                                terr(
                                                    ctx,
                                                    e,
                                                    TypeMessage::IfBranchMismatch(
                                                        *y,
                                                        *z,
                                                        nf(ty1),
                                                        nf(tz),
                                                    ),
                                                ),
                                            )
                                        } else {
                                            Result::Ok(nf(ty1))
                                        },
                                    },
                                }
                            },
                        }
                    },
                }
            },
        },
        Expr::NaturalLit(_) => Result::Ok(Expr::Builtin(crate::expr::Builtin::Natural)),
        Expr::IntegerLit(_) => Result::Ok(Expr::Builtin(crate::expr::Builtin::Integer)),
        Expr::DoubleLit(_) => Result::Ok(Expr::Builtin(crate::expr::Builtin::Double)),
        Expr::TextLit(_) => Result::Ok(Expr::Builtin(crate::expr::Builtin::Text)),
        Expr::BinOp(op, l, r) => match tck(ctx, *l, fuel) {
            Result::Err(err) => Result::Err(err),
            Result::Ok(tl) => match tck(ctx, *r, fuel) {
                Result::Err(err) => Result::Err(err),
                Result::Ok(tr) => if op == crate::expr::BinOp::ListAppend {
                    match nf(tl) {
                        Expr::App(f0, _) => if *f0 == Expr::Builtin(crate::expr::Builtin::List) {
                            if jeq(nf(tl), nf(tr)) {
                                Result::Ok(nf(tl))
                            } else {
                                Result::Err(terr(ctx, e, binop_msg(op, *r, nf(tr))))
                            }
                        } else {
                            Result::Err(terr(ctx, e, binop_msg(op, *l, nf(tl))))
                        },
                        other => Result::Err(terr(ctx, e, binop_msg(op, *l, other))),
                    }
                } else {
                    if nf(tl) != binop_operand(op) {
                        Result::Err(terr(ctx, e, binop_msg(op, *l, nf(tl))))
                    } else if nf(tr) != binop_operand(op) {
                        Result::Err(terr(ctx, e, binop_msg(op, *r, nf(tr))))
                    } else {
                        Result::Ok(binop_operand(op))
                    }
                },
            },
        },
        Expr::EmptyListLit(t) => match tck(ctx, *t, fuel) {
            Result::Err(err) => Result::Err(err),
            Result::Ok(tt) => if nf(tt) == ty {
                Result::Ok(ap_(Expr::Builtin(crate::expr::Builtin::List), *t))
            } else {
                Result::Err(terr(ctx, e, TypeMessage::InvalidListType(*t)))
            },
        },
        Expr::NEListLit(xs) => match xs {
            Exprs::Nil => Result::Err(terr(ctx, e, TypeMessage::InvalidListType(e))),
            Exprs::Cons(x0, rest) => match tck(ctx, *x0, fuel) {
                Result::Err(err) => Result::Err(err),
                Result::Ok(t) => if fuel <= 0 {
                    Result::Err(terr(ctx, e, TypeMessage::RecursionLimit))
                } else {
                    match tck(ctx, t, (fuel - 1) as nat) {
                        Result::Err(err) => Result::Err(err),
                        Result::Ok(tt) => if nf(tt) != ty {
                            Result::Err(terr(ctx, e, TypeMessage::InvalidListType(t)))
                        } else {
                            match tck_list_elems(ctx, e, *rest, t, 1, fuel) {
                                Option::Some(err) => Result::Err(err),
                                Option::None => Result::Ok(
                                    ap_(Expr::Builtin(crate::expr::Builtin::List), t),
                                ),
                            }
                        },
                    }
                },
            },
        },
        Expr::OptionalLit(t, xs) => match tck(ctx, *t, fuel) {
            Result::Err(err) => Result::Err(err),
            Result::Ok(tt) => if nf(tt) != ty {
                Result::Err(terr(ctx, e, TypeMessage::InvalidOptionalType(*t)))
            } else if crate::normalize::exprs_len(xs) >= 2 {
                Result::Err(
                    terr(
                        ctx,
                        e,
                        TypeMessage::InvalidOptionalLiteral(
                            crate::normalize::cap_u64(crate::normalize::exprs_len(xs)),
                        ),
                    ),
                )
            } else {
                match tck_opt_elems(ctx, e, xs, *t, fuel) {
                    Option::Some(err) => Result::Err(err),
                    Option::None => Result::Ok(
                        ap_(Expr::Builtin(crate::expr::Builtin::Optional), *t),
                    ),
                }
            },
        },
        Expr::SomeLit(x) => match tck(ctx, *x, fuel) {
            Result::Err(err) => Result::Err(err),
            Result::Ok(t) => if fuel <= 0 {
                Result::Err(terr(ctx, e, TypeMessage::RecursionLimit))
            } else {
                match tck(ctx, t, (fuel - 1) as nat) {
                    Result::Err(err) => Result::Err(err),
                    Result::Ok(tt) => if nf(tt) == ty {
                        Result::Ok(ap_(Expr::Builtin(crate::expr::Builtin::Optional), t))
                    } else {
                        Result::Err(terr(ctx, e, TypeMessage::InvalidOptionalType(t)))
                    },
                }
            },
        },
        Expr::Record(fs) => match tck_record(ctx, e, fs, fuel) {
            Option::Some(err) => Result::Err(err),
            Option::None => Result::Ok(ty),
        },
        Expr::RecordLit(fs) => match tck_record_lit(ctx, e, fs, fuel) {
            Result::Err(err) => Result::Err(err),
            Result::Ok(kts) => Result::Ok(Expr::Record(kts)),
        },
        Expr::Union(alts) => match tck_union(ctx, e, alts, fuel) {
            Option::Some(err) => Result::Err(err),
            Option::None => Result::Ok(ty),
        },
        Expr::UnionLit(k, v, alts) => if crate::builder::alts_has(alts, k) {
            Result::Err(terr(ctx, e, TypeMessage::DuplicateAlternative(k)))
        } else {
            match tck(ctx, *v, fuel) {
                Result::Err(err) => Result::Err(err),
                Result::Ok(t) => {
                    let union = Expr::Union(
                        crate::builder::alts_insert(alts, k, Option::Some(Box::new(t))),
                    );
                    if fuel <= 0 {
                        Result::Err(terr(ctx, e, TypeMessage::RecursionLimit))
                    } else {
                        match tck(ctx, union, (fuel - 1) as nat) {
                            Result::Err(err) => Result::Err(err),
                            Result::Ok(_) => Result::Ok(union),
                        }
                    }
                },
            }
        },
        Expr::Field(r, x) => match tck(ctx, *r, fuel) {
            Result::Err(err) => Result::Err(err),
            Result::Ok(tr) => match nf(tr) {
                Expr::Record(kts) => match crate::normalize::fields_get(kts, x) {
                    Option::Some(t) => Result::Ok(t),
                    Option::None => Result::Err(
                        terr(ctx, e, TypeMessage::MissingField(x, Expr::Record(kts))),
                    ),
                },
                other => Result::Err(terr(ctx, e, TypeMessage::NotARecord(x, *r, other))),
            },
        },
        Expr::Projection(r, ls) => match tck(ctx, *r, fuel) {
            Result::Err(err) => Result::Err(err),
            Result::Ok(tr) => match nf(tr) {
                Expr::Record(kts) => match projection_missing(kts, ls) {
                    Option::Some(missing) => Result::Err(
                        terr(ctx, e, TypeMessage::MissingField(missing, Expr::Record(kts))),
                    ),
                    Option::None => Result::Ok(
                        Expr::Record(crate::normalize::fields_project(kts, ls)),
                    ),
                },
                other => match ls {
                    Labels::Nil => Result::Ok(Expr::Record(Fields::Nil)),
                    Labels::Cons(l0, _) => Result::Err(
                        terr(ctx, e, TypeMessage::NotARecord(l0, *r, other)),
                    ),
                },
            },
        },
        Expr::Merge(h, u, mt) => match tck(ctx, *h, fuel) {
            Result::Err(err) => Result::Err(err),
            Result::Ok(th) => match tck(ctx, *u, fuel) {
                Result::Err(err) => Result::Err(err),
                Result::Ok(tu) => match nf(th) {
                    Expr::Record(kts) => match nf(tu) {
                        Expr::Union(alts) => match merge_out(ctx, e, alts, kts, mt) {
                            Result::Err(err) => Result::Err(err),
                            Result::Ok(out) => match merge_check_alts(ctx, e, alts, kts, out) {
                                Option::Some(err) => Result::Err(err),
                                Option::None => match merge_unused_handler(kts, alts) {
                                    Option::Some(k) => Result::Err(
                                        terr(
                                            ctx,
                                            e,
                                            TypeMessage::UnusedHandler(
                                                Labels::Cons(k, Box::new(Labels::Nil)),
                                            ),
                                        ),
                                    ),
                                    Option::None => Result::Ok(out),
                                },
                            },
                        },
                        other => Result::Err(terr(ctx, e, TypeMessage::MustMergeUnion(*u, other))),
                    },
                    other => Result::Err(terr(ctx, e, TypeMessage::MustMergeARecord(*h, other))),
                },
            },
        },
    }
}

} // verus!

verus! {

/// The operand type and the mismatch message family of each binary
/// operator.
pub open spec fn binop_msg(op: crate::expr::BinOp, culprit: Expr, t: Expr) -> TypeMessage {
    match op {
        crate::expr::BinOp::BoolAnd => TypeMessage::CantAnd(culprit, t),
        crate::expr::BinOp::BoolOr => TypeMessage::CantOr(culprit, t),
        crate::expr::BinOp::BoolEQ => TypeMessage::CantEQ(culprit, t),
        crate::expr::BinOp::BoolNE => TypeMessage::CantNE(culprit, t),
        crate::expr::BinOp::NaturalPlus => TypeMessage::CantAdd(culprit, t),
        crate::expr::BinOp::NaturalTimes => TypeMessage::CantMultiply(culprit, t),
        crate::expr::BinOp::TextAppend => TypeMessage::CantTextAppend(culprit, t),
        crate::expr::BinOp::ListAppend => TypeMessage::CantListAppend(culprit, t),
    }
}

/// The operand type a binary operator demands, for every operator but the
/// list concatenation.
pub open spec fn binop_operand(op: crate::expr::BinOp) -> Expr {
    match op {
        crate::expr::BinOp::BoolAnd => Expr::Builtin(crate::expr::Builtin::Bool),
        crate::expr::BinOp::BoolOr => Expr::Builtin(crate::expr::Builtin::Bool),
        crate::expr::BinOp::BoolEQ => Expr::Builtin(crate::expr::Builtin::Bool),
        crate::expr::BinOp::BoolNE => Expr::Builtin(crate::expr::Builtin::Bool),
        crate::expr::BinOp::NaturalPlus => Expr::Builtin(crate::expr::Builtin::Natural),
        crate::expr::BinOp::NaturalTimes => Expr::Builtin(crate::expr::Builtin::Natural),
        crate::expr::BinOp::TextAppend => Expr::Builtin(crate::expr::Builtin::Text),
        crate::expr::BinOp::ListAppend => Expr::Builtin(crate::expr::Builtin::Text),
    }
}

/// Checks the elements of a non-empty list literal after the first: each
/// one's type must be judgmentally equal to the first element's.
pub open spec fn tck_list_elems(
    ctx: Context,
    e: Expr,
    xs: Exprs,
    t: Expr,
    i: u64,
    fuel: nat,
) -> Option<TypeError>
    decreases fuel, xs, 0int,
{
    match xs {
        Exprs::Nil => Option::None,
        Exprs::Cons(x, rest) => match tck(ctx, *x, fuel) {
            Result::Err(err) => Option::Some(err),
            Result::Ok(t2) => if jeq(t, t2) {
                tck_list_elems(ctx, e, *rest, t, if i < u64::MAX {
                    (i + 1) as u64
                } else {
                    u64::MAX
                }, fuel)
            } else {
                Option::Some(
                    terr(ctx, e, TypeMessage::InvalidListElement(i, nf(t), *x, nf(t2))),
                )
            },
        },
    }
}

/// Checks the elements of an optional literal: each one's type must be
/// judgmentally equal to the annotated element type.
pub open spec fn tck_opt_elems(
    ctx: Context,
    e: Expr,
    xs: Exprs,
    t: Expr,
    fuel: nat,
) -> Option<TypeError>
    decreases fuel, xs, 0int,
{
    match xs {
        Exprs::Nil => Option::None,
        Exprs::Cons(x, rest) => match tck(ctx, *x, fuel) {
            Result::Err(err) => Option::Some(err),
            Result::Ok(t2) => if jeq(t, t2) {
                tck_opt_elems(ctx, e, *rest, t, fuel)
            } else {
                Option::Some(
                    terr(ctx, e, TypeMessage::InvalidOptionalElement(nf(t), *x, nf(t2))),
                )
            },
        },
    }
}

/// Checks the field types of a record type node: each must be classified
/// by the lowest universe.
pub open spec fn tck_record(ctx: Context, e: Expr, fs: Fields, fuel: nat) -> Option<TypeError>
    decreases fuel, fs, 0int,
{
    match fs {
        Fields::Nil => Option::None,
        Fields::Cons(k, t, rest) => match tck(ctx, *t, fuel) {
            Result::Err(err) => Option::Some(err),
            Result::Ok(tt) => if nf(tt) == Expr::Const(crate::expr::Const::Type) {
                tck_record(ctx, e, *rest, fuel)
            } else {
                Option::Some(terr(ctx, e, TypeMessage::InvalidFieldType(k, *t)))
            },
        },
    }
}

/// Infers the field types of a record literal, checking each is a term.
pub open spec fn tck_record_lit(
    ctx: Context,
    e: Expr,
    fs: Fields,
    fuel: nat,
) -> Result<Fields, TypeError>
    decreases fuel, fs, 0int,
{
    match fs {
        Fields::Nil => Result::Ok(Fields::Nil),
        Fields::Cons(k, v, rest) => match tck(ctx, *v, fuel) {
            Result::Err(err) => Result::Err(err),
            Result::Ok(t) => if fuel <= 0 {
                Result::Err(terr(ctx, e, TypeMessage::RecursionLimit))
            } else {
                match tck(ctx, t, (fuel - 1) as nat) {
                    Result::Err(err) => Result::Err(err),
                    Result::Ok(tt) => if nf(tt) == Expr::Const(crate::expr::Const::Type) {
                        match tck_record_lit(ctx, e, *rest, fuel) {
                            Result::Err(err) => Result::Err(err),
                            Result::Ok(kts) => Result::Ok(
                                Fields::Cons(k, Box::new(t), Box::new(kts)),
                            ),
                        }
                    } else {
                        Result::Err(terr(ctx, e, TypeMessage::InvalidField(k, *v)))
                    },
                }
            },
        },
    }
}

/// Checks the alternative types of a union type node.
pub open spec fn tck_union(ctx: Context, e: Expr, alts: Alts, fuel: nat) -> Option<TypeError>
    decreases fuel, alts, 0int,
{
    match alts {
        Alts::Nil => Option::None,
        Alts::Cons(k, mt, rest) => match mt {
            Option::None => tck_union(ctx, e, *rest, fuel),
            Option::Some(t) => match tck(ctx, *t, fuel) {
                Result::Err(err) => Option::Some(err),
                Result::Ok(tt) => if nf(tt) == Expr::Const(crate::expr::Const::Type) {
                    tck_union(ctx, e, *rest, fuel)
                } else {
                    Option::Some(terr(ctx, e, TypeMessage::InvalidAlternativeType(k, *t)))
                },
            },
        },
    }
}

/// The first projected label that the record type lacks, if any.
pub open spec fn projection_missing(kts: Fields, ls: Labels) -> Option<Chars>
    decreases ls,
{
    match ls {
        Labels::Nil => Option::None,
        Labels::Cons(l, rest) => if crate::normalize::fields_get(kts, l) is Some {
            projection_missing(kts, *rest)
        } else {
            Option::Some(l)
        },
    }
}

/// The result type of a pattern match: the annotation when one is given,
/// else the output of the handler of the first alternative.
pub open spec fn merge_out(
    ctx: Context,
    e: Expr,
    alts: Alts,
    kts: Fields,
    mt: Option<Box<Expr>>,
) -> Result<Expr, TypeError> {
    match mt {
        Option::Some(t) => Result::Ok(*t),
        Option::None => match alts {
            Alts::Nil => Result::Err(terr(ctx, e, TypeMessage::MissingHandler(Labels::Nil))),
            Alts::Cons(k, p, _) => match crate::normalize::fields_get(kts, k) {
                Option::None => Result::Err(
                    terr(
                        ctx,
                        e,
                        TypeMessage::MissingHandler(Labels::Cons(k, Box::new(Labels::Nil))),
                    ),
                ),
                Option::Some(h) => match p {
                    Option::None => Result::Ok(h),
                    Option::Some(_) => match h {
                        Expr::Pi(x, _, cod) => Result::Ok(
                            crate::subst::shift_expr(-1i64, Var { name: x, idx: 0 }, *cod),
                        ),
                        other => Result::Err(terr(ctx, e, TypeMessage::HandlerNotAFunction(k, other))),
                    },
                },
            },
        },
    }
}

/// Checks every alternative of the matched union against its handler: a
/// payload-carrying alternative needs a function from the payload type to
/// the common output, a bare alternative needs a handler of the output
/// type itself.
pub open spec fn merge_check_alts(
    ctx: Context,
    e: Expr,
    alts: Alts,
    kts: Fields,
    out: Expr,
) -> Option<TypeError>
    decreases alts,
{
    match alts {
        Alts::Nil => Option::None,
        Alts::Cons(k, p, rest) => match crate::normalize::fields_get(kts, k) {
            Option::None => Option::Some(
                terr(
                    ctx,
                    e,
                    TypeMessage::MissingHandler(Labels::Cons(k, Box::new(Labels::Nil))),
                ),
            ),
            Option::Some(h) => match p {
                Option::None => if jeq(h, out) {
                    merge_check_alts(ctx, e, *rest, kts, out)
                } else {
                    Option::Some(terr(ctx, e, TypeMessage::HandlerOutputTypeMismatch(k, out, h)))
                },
                Option::Some(ty) => match h {
                    Expr::Pi(x, tin, cod) => if !jeq(*tin, *ty) {
                        Option::Some(
                            terr(ctx, e, TypeMessage::HandlerInputTypeMismatch(k, *ty, *tin)),
                        )
                    } else {
                        let outk = crate::subst::shift_expr(-1i64, Var { name: x, idx: 0 }, *cod);
                        if jeq(outk, out) {
                            merge_check_alts(ctx, e, *rest, kts, out)
                        } else {
                            Option::Some(
                                terr(ctx, e, TypeMessage::HandlerOutputTypeMismatch(k, out, outk)),
                            )
                        }
                    },
                    other => Option::Some(terr(ctx, e, TypeMessage::HandlerNotAFunction(k, other))),
                },
            },
        },
    }
}

/// The first handler whose label the matched union lacks, if any.
pub open spec fn merge_unused_handler(kts: Fields, alts: Alts) -> Option<Chars>
    decreases kts,
{
    match kts {
        Fields::Nil => Option::None,
        Fields::Cons(k, _, rest) => if crate::builder::alts_has(alts, k) {
            merge_unused_handler(*rest, alts)
        } else {
            Option::Some(k)
        },
    }
}

} // verus!

verus! {

fn name_us_exec() -> (res: Chars)
    ensures
        res == name_us(),
{
    Chars::Cons('_', Box::new(Chars::Nil))
}

fn name_a_exec() -> (res: Chars)
    ensures
        res == name_a(),
{
    Chars::Cons('a', Box::new(Chars::Nil))
}

fn name_b_exec() -> (res: Chars)
    ensures
        res == name_b(),
{
    Chars::Cons('b', Box::new(Chars::Nil))
}

fn pi_exec(x: Chars, a: Expr, b: Expr) -> (res: Expr)
    ensures
        res == pi_(x, a, b),
{
    Expr::Pi(x, Box::new(a), Box::new(b))
}

fn ap_exec(f: Expr, a: Expr) -> (res: Expr)
    ensures
        res == ap_(f, a),
{
    Expr::App(Box::new(f), Box::new(a))
}

fn var_a_exec() -> (res: Expr)
    ensures
        res == var_a(),
{
    Expr::Var(Var { name: name_a_exec(), idx: 0 })
}

fn var_b_exec() -> (res: Expr)
    ensures
        res == var_b(),
{
    Expr::Var(Var { name: name_b_exec(), idx: 0 })
}

fn church_list_exec() -> (res: Expr)
    ensures
        res == pi_(
            name_b(),
            Expr::Const(crate::expr::Const::Type),
            pi_(
                name_us(),
                pi_(name_us(), var_a(), pi_(name_us(), var_b(), var_b())),
                pi_(name_us(), var_b(), var_b()),
            ),
        ),
{
    pi_exec(
        name_b_exec(),
        Expr::Const(crate::expr::Const::Type),
        pi_exec(
            name_us_exec(),
            pi_exec(name_us_exec(), var_a_exec(), pi_exec(name_us_exec(), var_b_exec(), var_b_exec())),
            pi_exec(name_us_exec(), var_b_exec(), var_b_exec()),
        ),
    )
}

fn church_opt_exec() -> (res: Expr)
    ensures
        res == pi_(
            name_b(),
            Expr::Const(crate::expr::Const::Type),
            pi_(name_us(), pi_(name_us(), var_a(), var_b()), pi_(name_us(), var_b(), var_b())),
        ),
{
    pi_exec(
        name_b_exec(),
        Expr::Const(crate::expr::Const::Type),
        pi_exec(
            name_us_exec(),
            pi_exec(name_us_exec(), var_a_exec(), var_b_exec()),
            pi_exec(name_us_exec(), var_b_exec(), var_b_exec()),
        ),
    )
}

fn church_nat_exec() -> (res: Expr)
    ensures
        res == pi_(
            name_a(),
            Expr::Const(crate::expr::Const::Type),
            pi_(name_us(), pi_(name_us(), var_a(), var_a()), pi_(name_us(), var_a(), var_a())),
        ),
{
    pi_exec(
        name_a_exec(),
        Expr::Const(crate::expr::Const::Type),
        pi_exec(
            name_us_exec(),
            pi_exec(name_us_exec(), var_a_exec(), var_a_exec()),
            pi_exec(name_us_exec(), var_a_exec(), var_a_exec()),
        ),
    )
}

/// The fixed polymorphic signature of each built-in identifier; see
/// [`builtin_type`].
pub fn builtin_type_exec(b: crate::expr::Builtin) -> (res: Expr)
    ensures
        res == builtin_type(b),
{
    let ty = Expr::Const(crate::expr::Const::Type);
    match b {
        crate::expr::Builtin::Bool => ty,
        crate::expr::Builtin::Natural => ty,
        crate::expr::Builtin::Integer => ty,
        crate::expr::Builtin::Double => ty,
        crate::expr::Builtin::Text => ty,
        crate::expr::Builtin::List => pi_exec(name_us_exec(), ty, Expr::Const(crate::expr::Const::Type)),
        crate::expr::Builtin::Optional => pi_exec(
            name_us_exec(),
            ty,
            Expr::Const(crate::expr::Const::Type),
        ),
        crate::expr::Builtin::OptionalNone => pi_exec(
            name_a_exec(),
            ty,
            ap_exec(Expr::Builtin(crate::expr::Builtin::Optional), var_a_exec()),
        ),
        crate::expr::Builtin::NaturalBuild => pi_exec(
            name_us_exec(),
            church_nat_exec(),
            Expr::Builtin(crate::expr::Builtin::Natural),
        ),
        crate::expr::Builtin::NaturalFold => pi_exec(
            name_us_exec(),
            Expr::Builtin(crate::expr::Builtin::Natural),
            church_nat_exec(),
        ),
        crate::expr::Builtin::NaturalIsZero => pi_exec(
            name_us_exec(),
            Expr::Builtin(crate::expr::Builtin::Natural),
            Expr::Builtin(crate::expr::Builtin::Bool),
        ),
        crate::expr::Builtin::NaturalEven => pi_exec(
            name_us_exec(),
            Expr::Builtin(crate::expr::Builtin::Natural),
            Expr::Builtin(crate::expr::Builtin::Bool),
        ),
        crate::expr::Builtin::NaturalOdd => pi_exec(
            name_us_exec(),
            Expr::Builtin(crate::expr::Builtin::Natural),
            Expr::Builtin(crate::expr::Builtin::Bool),
        ),
        crate::expr::Builtin::NaturalToInteger => pi_exec(
            name_us_exec(),
            Expr::Builtin(crate::expr::Builtin::Natural),
            Expr::Builtin(crate::expr::Builtin::Integer),
        ),
        crate::expr::Builtin::NaturalShow => pi_exec(
            name_us_exec(),
            Expr::Builtin(crate::expr::Builtin::Natural),
            Expr::Builtin(crate::expr::Builtin::Text),
        ),
        crate::expr::Builtin::IntegerToDouble => pi_exec(
            name_us_exec(),
            Expr::Builtin(crate::expr::Builtin::Integer),
            Expr::Builtin(crate::expr::Builtin::Double),
        ),
        crate::expr::Builtin::IntegerShow => pi_exec(
            name_us_exec(),
            Expr::Builtin(crate::expr::Builtin::Integer),
            Expr::Builtin(crate::expr::Builtin::Text),
        ),
        crate::expr::Builtin::DoubleShow => pi_exec(
            name_us_exec(),
            Expr::Builtin(crate::expr::Builtin::Double),
            Expr::Builtin(crate::expr::Builtin::Text),
        ),
        crate::expr::Builtin::ListBuild => pi_exec(
            name_a_exec(),
            ty,
            pi_exec(
                name_us_exec(),
                church_list_exec(),
                ap_exec(Expr::Builtin(crate::expr::Builtin::List), var_a_exec()),
            ),
        ),
        crate::expr::Builtin::ListFold => pi_exec(
            name_a_exec(),
            ty,
            pi_exec(
                name_us_exec(),
                ap_exec(Expr::Builtin(crate::expr::Builtin::List), var_a_exec()),
                church_list_exec(),
            ),
        ),
        crate::expr::Builtin::ListLength => pi_exec(
            name_a_exec(),
            ty,
            pi_exec(
                name_us_exec(),
                ap_exec(Expr::Builtin(crate::expr::Builtin::List), var_a_exec()),
                Expr::Builtin(crate::expr::Builtin::Natural),
            ),
        ),
        crate::expr::Builtin::ListHead => pi_exec(
            name_a_exec(),
            ty,
            pi_exec(
                name_us_exec(),
                ap_exec(Expr::Builtin(crate::expr::Builtin::List), var_a_exec()),
                ap_exec(Expr::Builtin(crate::expr::Builtin::Optional), var_a_exec()),
            ),
        ),
        crate::expr::Builtin::ListLast => pi_exec(
            name_a_exec(),
            ty,
            pi_exec(
                name_us_exec(),
                ap_exec(Expr::Builtin(crate::expr::Builtin::List), var_a_exec()),
                ap_exec(Expr::Builtin(crate::expr::Builtin::Optional), var_a_exec()),
            ),
        ),
        crate::expr::Builtin::ListIndexed => pi_exec(
            name_a_exec(),
            ty,
            pi_exec(
                name_us_exec(),
                ap_exec(Expr::Builtin(crate::expr::Builtin::List), var_a_exec()),
                ap_exec(
                    Expr::Builtin(crate::expr::Builtin::List),
                    crate::normalize::indexed_record_type_pub(var_a_exec()),
                ),
            ),
        ),
        crate::expr::Builtin::ListReverse => pi_exec(
            name_a_exec(),
            ty,
            pi_exec(
                name_us_exec(),
                ap_exec(Expr::Builtin(crate::expr::Builtin::List), var_a_exec()),
                ap_exec(Expr::Builtin(crate::expr::Builtin::List), var_a_exec()),
            ),
        ),
        crate::expr::Builtin::OptionalFold => pi_exec(
            name_a_exec(),
            ty,
            pi_exec(
                name_us_exec(),
                ap_exec(Expr::Builtin(crate::expr::Builtin::Optional), var_a_exec()),
                church_opt_exec(),
            ),
        ),
        crate::expr::Builtin::OptionalBuild => pi_exec(
            name_a_exec(),
            ty,
            pi_exec(
                name_us_exec(),
                church_opt_exec(),
                ap_exec(Expr::Builtin(crate::expr::Builtin::Optional), var_a_exec()),
            ),
        ),
        crate::expr::Builtin::TextShow => pi_exec(
            name_us_exec(),
            Expr::Builtin(crate::expr::Builtin::Text),
            Expr::Builtin(crate::expr::Builtin::Text),
        ),
    }
}

} // verus!

verus! {

/// The recursion budget of the public checker entry points.
pub const TYPECHECK_FUEL: u64 = 100000;

/// Type-checks an expression under a context and returns the expression's
/// inferred type when checking succeeds, or the first error met.
///
/// The returned type is not necessarily normalized.
pub fn type_with(ctx: &Context, e: &Expr) -> (res: Result<Expr, TypeError>)
    ensures
        res == tck(*ctx, *e, TYPECHECK_FUEL as nat),
{
    tck_exec(ctx, e, TYPECHECK_FUEL)
}

/// Type-checks a closed expression: `type_with` under the empty context.
pub fn type_of(e: &Expr) -> (res: Result<Expr, TypeError>)
    ensures
        res == tck(Context { entries: Fields::Nil }, *e, TYPECHECK_FUEL as nat),
{
    let ctx = Context::new();
    type_with(&ctx, e)
}

fn nf_exec(e: &Expr) -> (res: Expr)
    ensures
        res == nf(*e),
{
    normalize_with_fuel(e, crate::normalize::NORMALIZE_FUEL)
}

fn is_const_type(e: &Expr) -> (res: bool)
    ensures
        res == (*e == Expr::Const(crate::expr::Const::Type)),
{
    match e {
        Expr::Const(crate::expr::Const::Type) => true,
        _ => false,
    }
}

fn tck_exec(ctx: &Context, e: &Expr, fuel: u64) -> (res: Result<Expr, TypeError>)
    ensures
        res == tck(*ctx, *e, fuel as nat),
    decreases fuel as nat, *e, 2int,
{
    match e {
        Expr::Const(c) => match c {
            crate::expr::Const::Type => Result::Ok(Expr::Const(crate::expr::Const::Kind)),
            crate::expr::Const::Kind => Result::Ok(Expr::Const(crate::expr::Const::Sort)),
            crate::expr::Const::Sort => Result::Err(TypeError::new(ctx, e, TypeMessage::Untyped)),
        },
        Expr::Var(v) => match ctx.lookup(v) {
            Option::Some(t) => Result::Ok(t),
            Option::None => Result::Err(TypeError::new(ctx, e, TypeMessage::UnboundVariable)),
        },
        Expr::Lam(x, t, b) => {
            let ctx2 = ctx.insert_shift(x, clone_expr(t));
            match tck_exec(&ctx2, b, fuel) {
                Result::Err(err) => Result::Err(err),
                Result::Ok(tb) => {
                    let p = Expr::Pi(chars_clone(x), Box::new(clone_expr(t)), Box::new(tb));
                    if fuel > 0 {
                        match tck_exec(ctx, &p, fuel - 1) {
                            Result::Err(err) => Result::Err(err),
                            Result::Ok(_) => Result::Ok(p),
                        }
                    } else {
                        Result::Err(TypeError::new(ctx, e, TypeMessage::RecursionLimit))
                    }
                },
            }
        },
        Expr::Pi(x, t, b) => match tck_exec(ctx, t, fuel) {
            Result::Err(err) => Result::Err(err),
            Result::Ok(tt) => {
                let ttn = nf_exec(&tt);
                match ttn {
                    Expr::Const(ka) => {
                        let ctx2 = ctx.insert_shift(x, clone_expr(t));
                        match tck_exec(&ctx2, b, fuel) {
                            Result::Err(err) => Result::Err(err),
                            Result::Ok(tb) => {
                                let tbn = nf_exec(&tb);
                                match tbn {
                                    Expr::Const(kb) => match rule_const_exec(ka, kb) {
                                        Option::Some(k) => Result::Ok(Expr::Const(k)),
                                        Option::None => Result::Err(
                                            TypeError::new(
                                                ctx,
                                                e,
                                                TypeMessage::NoDependentTypes(
                                                    clone_expr(t),
                                                    Expr::Const(kb),
                                                ),
                                            ),
                                        ),
                                    },
                                    other => Result::Err(
                                        TypeError::new(
                                            &ctx2,
                                            e,
                                            TypeMessage::InvalidOutputType(other),
                                        ),
                                    ),
                                }
                            },
                        }
                    },
                    _ => Result::Err(
                        TypeError::new(ctx, e, TypeMessage::InvalidInputType(clone_expr(t))),
                    ),
                }
            },
        },
        Expr::App(f, a) => match tck_exec(ctx, f, fuel) {
            Result::Err(err) => Result::Err(err),
            Result::Ok(tf) => {
                let tfn = nf_exec(&tf);
                match tfn {
                    Expr::Pi(x, ta, tb) => match tck_exec(ctx, a, fuel) {
                        Result::Err(err) => Result::Err(err),
                        Result::Ok(ta2) => if prop_equal(&ta, &ta2) {
                            let v = Var { name: x, idx: 0 };
                            Result::Ok(crate::subst::subst(&v, a, &tb))
                        } else {
                            Result::Err(
                                TypeError::new(
                                    ctx,
                                    e,
                                    TypeMessage::TypeMismatch(
                                        clone_expr(f),
                                        nf_exec(&ta),
                                        clone_expr(a),
                                        nf_exec(&ta2),
                                    ),
                                ),
                            )
                        },
                    },
                    other => Result::Err(
                        TypeError::new(ctx, e, TypeMessage::NotAFunction(clone_expr(f), other)),
                    ),
                }
            },
        },
        Expr::Let(x, mt, r, b) => match tck_exec(ctx, r, fuel) {
            Result::Err(err) => Result::Err(err),
            Result::Ok(tr) => if fuel <= 0 {
                Result::Err(TypeError::new(ctx, e, TypeMessage::RecursionLimit))
            } else {
                match tck_exec(ctx, &tr, fuel - 1) {
                    Result::Err(err) => Result::Err(err),
                    Result::Ok(ttr) => {
                        let ttrn = nf_exec(&ttr);
                        match ttrn {
                            Expr::Const(kr) => {
                                let ctx2 = ctx.insert(x, clone_expr(&tr));
                                match tck_exec(&ctx2, b, fuel) {
                                    Result::Err(err) => Result::Err(err),
                                    Result::Ok(tb) => match tck_exec(ctx, &tb, fuel - 1) {
                                        Result::Err(err) => Result::Err(err),
                                        Result::Ok(ttb) => {
                                            let ttbn = nf_exec(&ttb);
                                            match ttbn {
                                                Expr::Const(kb) => if rule_const_exec(
                                                    kr,
                                                    kb,
                                                ).is_none() {
                                                    Result::Err(
                                                        TypeError::new(
                                                            ctx,
                                                            e,
                                                            TypeMessage::NoDependentLet(tr, tb),
                                                        ),
                                                    )
                                                } else {
                                                    match mt {
                                                        Option::None => Result::Ok(tb),
                                                        Option::Some(ann) => {
                                                            let trn = nf_exec(&tr);
                                                            let annn = nf_exec(ann);
                                                            if prop_equal(&trn, &annn) {
                                                                Result::Ok(tb)
                                                            } else {
                                                                Result::Err(
                                                                    TypeError::new(
                                                                        ctx,
                                                                        e,
                                                                        TypeMessage::AnnotMismatch(
                                                                            clone_expr(r),
                                                                            annn,
                                                                            trn,
                                                                        ),
                                                                    ),
                                                                )
                                                            }
                                                        },
                                                    }
                                                },
                                                _ => Result::Err(
                                                    TypeError::new(
                                                        ctx,
                                                        e,
                                                        TypeMessage::InvalidOutputType(tb),
                                                    ),
                                                ),
                                            }
                                        },
                                    },
                                }
                            },
                            _ => Result::Err(
                                TypeError::new(ctx, e, TypeMessage::InvalidInputType(tr)),
                            ),
                        }
                    },
                }
            },
        },
        Expr::Annot(x, t) => match tck_exec(ctx, t, fuel) {
            Result::Err(err) => Result::Err(err),
            Result::Ok(_) => match tck_exec(ctx, x, fuel) {
                Result::Err(err) => Result::Err(err),
                Result::Ok(t2) => if prop_equal(t, &t2) {
                    Result::Ok(clone_expr(t))
                } else {
                    Result::Err(
                        TypeError::new(
                            ctx,
                            e,
                            TypeMessage::AnnotMismatch(clone_expr(x), nf_exec(t), nf_exec(&t2)),
                        ),
                    )
                },
            },
        },
        Expr::Builtin(b) => Result::Ok(builtin_type_exec(*b)),
        Expr::BoolLit(_) => Result::Ok(Expr::Builtin(crate::expr::Builtin::Bool)),
        Expr::BoolIf(c, y, z) => match tck_exec(ctx, c, fuel) {
            Result::Err(err) => Result::Err(err),
            Result::Ok(tc) => {
                let tcn = nf_exec(&tc);
                if !expr_eq(&tcn, &Expr::Builtin(crate::expr::Builtin::Bool)) {
                    Result::Err(
                        TypeError::new(ctx, e, TypeMessage::InvalidPredicate(clone_expr(c), tcn)),
                    )
                } else {
                    match tck_exec(ctx, y, fuel) {
                        Result::Err(err) => Result::Err(err),
                        Result::Ok(ty1) => if fuel <= 0 {
                            Result::Err(TypeError::new(ctx, e, TypeMessage::RecursionLimit))
                        } else {
                            let tyn = nf_exec(&ty1);
                            match tck_exec(ctx, &tyn, fuel - 1) {
                                Result::Err(err) => Result::Err(err),
                                Result::Ok(tty) => {
                                    let ttyn = nf_exec(&tty);
                                    if !is_const_type(&ttyn) {
                                        Result::Err(
                                            TypeError::new(
                                                ctx,
                                                e,
                                                TypeMessage::IfBranchMustBeTerm(
                                                    true,
                                                    clone_expr(y),
                                                    tyn,
                                                    ttyn,
                                                ),
                                            ),
                                        )
                                    } else {
                                        match tck_exec(ctx, z, fuel) {
                                            Result::Err(err) => Result::Err(err),
                                            Result::Ok(tz) => {
                                                let tzn = nf_exec(&tz);
                                                match tck_exec(ctx, &tzn, fuel - 1) {
                                                    Result::Err(err) => Result::Err(err),
                                                    Result::Ok(ttz) => {
                                                        let ttzn = nf_exec(&ttz);
                                                        if !is_const_type(&ttzn) {
                                                            Result::Err(
                                                                TypeError::new(
                                                                    ctx,
                                                                    e,
                                                                    TypeMessage::IfBranchMustBeTerm(
                                                                        false,
                                                                        clone_expr(z),
                                                                        tzn,
                                                                        ttzn,
                                                                    ),
                                                                ),
                                                            )
                                                        } else if !prop_equal(&tyn, &tzn) {
                                                            Result::Err(
                                                                TypeError::new(
                                                                    ctx,
                                                                    e,
                                                                    TypeMessage::IfBranchMismatch(
                                                                        clone_expr(y),
                                                                        clone_expr(z),
                                                                        tyn,
                                                                        tzn,
                                                                    ),
                                                                ),
                                                            )
                                                        } else {
                                                            Result::Ok(tyn)
                                                        }
                                                    },
                                                }
                                            },
                                        }
                                    }
                                },
                            }
                        },
                    }
                }
            },
        },
        Expr::NaturalLit(_) => Result::Ok(Expr::Builtin(crate::expr::Builtin::Natural)),
        Expr::IntegerLit(_) => Result::Ok(Expr::Builtin(crate::expr::Builtin::Integer)),
        Expr::DoubleLit(_) => Result::Ok(Expr::Builtin(crate::expr::Builtin::Double)),
        Expr::TextLit(_) => Result::Ok(Expr::Builtin(crate::expr::Builtin::Text)),
        Expr::BinOp(op, l, r) => match tck_exec(ctx, l, fuel) {
            Result::Err(err) => Result::Err(err),
            Result::Ok(tl) => match tck_exec(ctx, r, fuel) {
                Result::Err(err) => Result::Err(err),
                Result::Ok(tr) => {
                    let tln = nf_exec(&tl);
                    let trn = nf_exec(&tr);
                    if *op == crate::expr::BinOp::ListAppend {
                        match tln {
                            Expr::App(f0, a0) => if expr_eq(
                                &f0,
                                &Expr::Builtin(crate::expr::Builtin::List),
                            ) {
                                let tln2 = Expr::App(f0, a0);
                                if prop_equal(&tln2, &trn) {
                                    Result::Ok(tln2)
                                } else {
                                    Result::Err(
                                        TypeError::new(
                                            ctx,
                                            e,
                                            binop_msg_exec(*op, clone_expr(r), trn),
                                        ),
                                    )
                                }
                            } else {
                                Result::Err(
                                    TypeError::new(
                                        ctx,
                                        e,
                                        binop_msg_exec(*op, clone_expr(l), Expr::App(f0, a0)),
                                    ),
                                )
                            },
                            other => Result::Err(
                                TypeError::new(ctx, e, binop_msg_exec(*op, clone_expr(l), other)),
                            ),
                        }
                    } else {
                        let want = binop_operand_exec(*op);
                        if !expr_eq(&tln, &want) {
                            Result::Err(
                                TypeError::new(ctx, e, binop_msg_exec(*op, clone_expr(l), tln)),
                            )
                        } else if !expr_eq(&trn, &want) {
                            Result::Err(
                                TypeError::new(ctx, e, binop_msg_exec(*op, clone_expr(r), trn)),
                            )
                        } else {
                            Result::Ok(want)
                        }
                    }
                },
            },
        },
        _ => tck_exec_rest(ctx, e, fuel),
    }
}

} // verus!

verus! {

fn rule_const_exec(a: crate::expr::Const, b: crate::expr::Const) -> (res: Option<
    crate::expr::Const,
>)
    ensures
        res == rule_const(a, b),
{
    if b == crate::expr::Const::Type {
        Option::Some(crate::expr::Const::Type)
    } else if a == crate::expr::Const::Type {
        Option::None
    } else {
        let oa: u64 = match a {
            crate::expr::Const::Type => 0,
            crate::expr::Const::Kind => 1,
            crate::expr::Const::Sort => 2,
        };
        let ob: u64 = match b {
            crate::expr::Const::Type => 0,
            crate::expr::Const::Kind => 1,
            crate::expr::Const::Sort => 2,
        };
        if oa >= ob {
            Option::Some(a)
        } else {
            Option::Some(b)
        }
    }
}

fn binop_msg_exec(op: crate::expr::BinOp, culprit: Expr, t: Expr) -> (res: TypeMessage)
    ensures
        res == binop_msg(op, culprit, t),
{
    match op {
        crate::expr::BinOp::BoolAnd => TypeMessage::CantAnd(culprit, t),
        crate::expr::BinOp::BoolOr => TypeMessage::CantOr(culprit, t),
        crate::expr::BinOp::BoolEQ => TypeMessage::CantEQ(culprit, t),
        crate::expr::BinOp::BoolNE => TypeMessage::CantNE(culprit, t),
        crate::expr::BinOp::NaturalPlus => TypeMessage::CantAdd(culprit, t),
        crate::expr::BinOp::NaturalTimes => TypeMessage::CantMultiply(culprit, t),
        crate::expr::BinOp::TextAppend => TypeMessage::CantTextAppend(culprit, t),
        crate::expr::BinOp::ListAppend => TypeMessage::CantListAppend(culprit, t),
    }
}

fn binop_operand_exec(op: crate::expr::BinOp) -> (res: Expr)
    ensures
        res == binop_operand(op),
{
    match op {
        crate::expr::BinOp::BoolAnd => Expr::Builtin(crate::expr::Builtin::Bool),
        crate::expr::BinOp::BoolOr => Expr::Builtin(crate::expr::Builtin::Bool),
        crate::expr::BinOp::BoolEQ => Expr::Builtin(crate::expr::Builtin::Bool),
        crate::expr::BinOp::BoolNE => Expr::Builtin(crate::expr::Builtin::Bool),
        crate::expr::BinOp::NaturalPlus => Expr::Builtin(crate::expr::Builtin::Natural),
        crate::expr::BinOp::NaturalTimes => Expr::Builtin(crate::expr::Builtin::Natural),
        crate::expr::BinOp::TextAppend => Expr::Builtin(crate::expr::Builtin::Text),
        crate::expr::BinOp::ListAppend => Expr::Builtin(crate::expr::Builtin::Text),
    }
}

fn tck_exec_rest(ctx: &Context, e: &Expr, fuel: u64) -> (res: Result<Expr, TypeError>)
    requires
        e matches Expr::EmptyListLit(_) || e matches Expr::NEListLit(_) || e matches
            Expr::OptionalLit(_, _) || e matches Expr::SomeLit(_) || e matches Expr::Record(_)
            || e matches Expr::RecordLit(_) || e matches Expr::Union(_) || e matches
            Expr::UnionLit(_, _, _) || e matches Expr::Field(_, _) || e matches Expr::Projection(
            _,
            _,
        ) || e matches Expr::Merge(_, _, _),
    ensures
        res == tck(*ctx, *e, fuel as nat),
    decreases fuel as nat, *e, 1int,
{
    let ty = Expr::Const(crate::expr::Const::Type);
    match e {
        Expr::EmptyListLit(t) => match tck_exec(ctx, t, fuel) {
            Result::Err(err) => Result::Err(err),
            Result::Ok(tt) => {
                let ttn = nf_exec(&tt);
                if is_const_type(&ttn) {
                    Result::Ok(
                        Expr::App(
                            Box::new(Expr::Builtin(crate::expr::Builtin::List)),
                            Box::new(clone_expr(t)),
                        ),
                    )
                } else {
                    Result::Err(
                        TypeError::new(ctx, e, TypeMessage::InvalidListType(clone_expr(t))),
                    )
                }
            },
        },
        Expr::NEListLit(xs) => match xs {
            Exprs::Nil => Result::Err(
                TypeError::new(ctx, e, TypeMessage::InvalidListType(clone_expr(e))),
            ),
            Exprs::Cons(x0, rest) => match tck_exec(ctx, x0, fuel) {
                Result::Err(err) => Result::Err(err),
                Result::Ok(t) => if fuel <= 0 {
                    Result::Err(TypeError::new(ctx, e, TypeMessage::RecursionLimit))
                } else {
                    match tck_exec(ctx, &t, fuel - 1) {
                        Result::Err(err) => Result::Err(err),
                        Result::Ok(tt) => {
                            let ttn = nf_exec(&tt);
                            if !is_const_type(&ttn) {
                                Result::Err(
                                    TypeError::new(ctx, e, TypeMessage::InvalidListType(t)),
                                )
                            } else {
                                match tck_list_elems_exec(ctx, e, rest, &t, 1, fuel) {
                                    Option::Some(err) => Result::Err(err),
                                    Option::None => Result::Ok(
                                        Expr::App(
                                            Box::new(Expr::Builtin(crate::expr::Builtin::List)),
                                            Box::new(t),
                                        ),
                                    ),
                                }
                            }
                        },
                    }
                },
            },
        },
        Expr::OptionalLit(t, xs) => match tck_exec(ctx, t, fuel) {
            Result::Err(err) => Result::Err(err),
            Result::Ok(tt) => {
                let ttn = nf_exec(&tt);
                if !is_const_type(&ttn) {
                    Result::Err(
                        TypeError::new(ctx, e, TypeMessage::InvalidOptionalType(clone_expr(t))),
                    )
                } else {
                    let n = crate::normalize::exprs_len_exec(xs);
                    if n >= 2 {
                        Result::Err(
                            TypeError::new(ctx, e, TypeMessage::InvalidOptionalLiteral(n)),
                        )
                    } else {
                        match tck_opt_elems_exec(ctx, e, xs, t, fuel) {
                            Option::Some(err) => Result::Err(err),
                            Option::None => Result::Ok(
                                Expr::App(
                                    Box::new(Expr::Builtin(crate::expr::Builtin::Optional)),
                                    Box::new(clone_expr(t)),
                                ),
                            ),
                        }
                    }
                }
            },
        },
        Expr::SomeLit(x) => match tck_exec(ctx, x, fuel) {
            Result::Err(err) => Result::Err(err),
            Result::Ok(t) => if fuel <= 0 {
                Result::Err(TypeError::new(ctx, e, TypeMessage::RecursionLimit))
            } else {
                match tck_exec(ctx, &t, fuel - 1) {
                    Result::Err(err) => Result::Err(err),
                    Result::Ok(tt) => {
                        let ttn = nf_exec(&tt);
                        if is_const_type(&ttn) {
                            Result::Ok(
                                Expr::App(
                                    Box::new(Expr::Builtin(crate::expr::Builtin::Optional)),
                                    Box::new(t),
                                ),
                            )
                        } else {
                            Result::Err(
                                TypeError::new(ctx, e, TypeMessage::InvalidOptionalType(t)),
                            )
                        }
                    },
                }
            },
        },
        Expr::Record(fs) => match tck_record_exec(ctx, e, fs, fuel) {
            Option::Some(err) => Result::Err(err),
            Option::None => Result::Ok(ty),
        },
        Expr::RecordLit(fs) => match tck_record_lit_exec(ctx, e, fs, fuel) {
            Result::Err(err) => Result::Err(err),
            Result::Ok(kts) => Result::Ok(Expr::Record(kts)),
        },
        Expr::Union(alts) => match tck_union_exec(ctx, e, alts, fuel) {
            Option::Some(err) => Result::Err(err),
            Option::None => Result::Ok(ty),
        },
        Expr::UnionLit(k, v, alts) => if crate::builder::alts_has_exec(alts, k) {
            Result::Err(
                TypeError::new(ctx, e, TypeMessage::DuplicateAlternative(chars_clone(k))),
            )
        } else {
            match tck_exec(ctx, v, fuel) {
                Result::Err(err) => Result::Err(err),
                Result::Ok(t) => {
                    let union = Expr::Union(
                        crate::builder::alts_insert_exec(
                            crate::expr::clone_alts(alts),
                            chars_clone(k),
                            Option::Some(Box::new(t)),
                        ),
                    );
                    if fuel <= 0 {
                        Result::Err(TypeError::new(ctx, e, TypeMessage::RecursionLimit))
                    } else {
                        match tck_exec(ctx, &union, fuel - 1) {
                            Result::Err(err) => Result::Err(err),
                            Result::Ok(_) => Result::Ok(union),
                        }
                    }
                },
            }
        },
        Expr::Field(r, x) => match tck_exec(ctx, r, fuel) {
            Result::Err(err) => Result::Err(err),
            Result::Ok(tr) => {
                let trn = nf_exec(&tr);
                match trn {
                    Expr::Record(kts) => match crate::normalize::fields_get_exec(&kts, x) {
                        Option::Some(t) => Result::Ok(t),
                        Option::None => Result::Err(
                            TypeError::new(
                                ctx,
                                e,
                                TypeMessage::MissingField(chars_clone(x), Expr::Record(kts)),
                            ),
                        ),
                    },
                    other => Result::Err(
                        TypeError::new(
                            ctx,
                            e,
                            TypeMessage::NotARecord(chars_clone(x), clone_expr(r), other),
                        ),
                    ),
                }
            },
        },
        Expr::Projection(r, ls) => match tck_exec(ctx, r, fuel) {
            Result::Err(err) => Result::Err(err),
            Result::Ok(tr) => {
                let trn = nf_exec(&tr);
                match trn {
                    Expr::Record(kts) => match projection_missing_exec(&kts, ls) {
                        Option::Some(missing) => Result::Err(
                            TypeError::new(
                                ctx,
                                e,
                                TypeMessage::MissingField(missing, Expr::Record(kts)),
                            ),
                        ),
                        Option::None => Result::Ok(
                            Expr::Record(
                                crate::normalize::fields_project_pub(
                                    crate::expr::clone_fields(&kts),
                                    ls,
                                ),
                            ),
                        ),
                    },
                    other => match ls {
                        Labels::Nil => Result::Ok(Expr::Record(Fields::Nil)),
                        Labels::Cons(l0, _) => Result::Err(
                            TypeError::new(
                                ctx,
                                e,
                                TypeMessage::NotARecord(chars_clone(l0), clone_expr(r), other),
                            ),
                        ),
                    },
                }
            },
        },
        Expr::Merge(h, u, mt) => match tck_exec(ctx, h, fuel) {
            Result::Err(err) => Result::Err(err),
            Result::Ok(th) => match tck_exec(ctx, u, fuel) {
                Result::Err(err) => Result::Err(err),
                Result::Ok(tu) => {
                    let thn = nf_exec(&th);
                    match thn {
                        Expr::Record(kts) => {
                            let tun = nf_exec(&tu);
                            match tun {
                                Expr::Union(alts) => match merge_out_exec(ctx, e, &alts, &kts, mt) {
                                    Result::Err(err) => Result::Err(err),
                                    Result::Ok(out) => match merge_check_alts_exec(
                                        ctx,
                                        e,
                                        &alts,
                                        &kts,
                                        &out,
                                    ) {
                                        Option::Some(err) => Result::Err(err),
                                        Option::None => match merge_unused_handler_exec(
                                            &kts,
                                            &alts,
                                        ) {
                                            Option::Some(k) => Result::Err(
                                                TypeError::new(
                                                    ctx,
                                                    e,
                                                    TypeMessage::UnusedHandler(
                                                        Labels::Cons(k, Box::new(Labels::Nil)),
                                                    ),
                                                ),
                                            ),
                                            Option::None => Result::Ok(out),
                                        },
                                    },
                                },
                                other => Result::Err(
                                    TypeError::new(
                                        ctx,
                                        e,
                                        TypeMessage::MustMergeUnion(clone_expr(u), other),
                                    ),
                                ),
                            }
                        },
                        other => Result::Err(
                            TypeError::new(
                                ctx,
                                e,
                                TypeMessage::MustMergeARecord(clone_expr(h), other),
                            ),
                        ),
                    }
                },
            },
        },
        _ => unreached(),
    }
}

fn tck_list_elems_exec(
    ctx: &Context,
    e: &Expr,
    xs: &Exprs,
    t: &Expr,
    i: u64,
    fuel: u64,
) -> (res: Option<TypeError>)
    ensures
        res == tck_list_elems(*ctx, *e, *xs, *t, i, fuel as nat),
    decreases fuel as nat, *xs, 0int,
{
    match xs {
        Exprs::Nil => Option::None,
        Exprs::Cons(x, rest) => match tck_exec(ctx, x, fuel) {
            Result::Err(err) => Option::Some(err),
            Result::Ok(t2) => if prop_equal(t, &t2) {
                let j = if i < u64::MAX {
                    i + 1
                } else {
                    u64::MAX
                };
                tck_list_elems_exec(ctx, e, rest, t, j, fuel)
            } else {
                Option::Some(
                    TypeError::new(
                        ctx,
                        e,
                        TypeMessage::InvalidListElement(i, nf_exec(t), clone_expr(x), nf_exec(&t2)),
                    ),
                )
            },
        },
    }
}

fn tck_opt_elems_exec(ctx: &Context, e: &Expr, xs: &Exprs, t: &Expr, fuel: u64) -> (res: Option<
    TypeError,
>)
    ensures
        res == tck_opt_elems(*ctx, *e, *xs, *t, fuel as nat),
    decreases fuel as nat, *xs, 0int,
{
    match xs {
        Exprs::Nil => Option::None,
        Exprs::Cons(x, rest) => match tck_exec(ctx, x, fuel) {
            Result::Err(err) => Option::Some(err),
            Result::Ok(t2) => if prop_equal(t, &t2) {
                tck_opt_elems_exec(ctx, e, rest, t, fuel)
            } else {
                Option::Some(
                    TypeError::new(
                        ctx,
                        e,
                        TypeMessage::InvalidOptionalElement(nf_exec(t), clone_expr(x), nf_exec(&t2)),
                    ),
                )
            },
        },
    }
}

fn tck_record_exec(ctx: &Context, e: &Expr, fs: &Fields, fuel: u64) -> (res: Option<TypeError>)
    ensures
        res == tck_record(*ctx, *e, *fs, fuel as nat),
    decreases fuel as nat, *fs, 0int,
{
    match fs {
        Fields::Nil => Option::None,
        Fields::Cons(k, t, rest) => match tck_exec(ctx, t, fuel) {
            Result::Err(err) => Option::Some(err),
            Result::Ok(tt) => {
                let ttn = nf_exec(&tt);
                if is_const_type(&ttn) {
                    tck_record_exec(ctx, e, rest, fuel)
                } else {
                    Option::Some(
                        TypeError::new(
                            ctx,
                            e,
                            TypeMessage::InvalidFieldType(chars_clone(k), clone_expr(t)),
                        ),
                    )
                }
            },
        },
    }
}

fn tck_record_lit_exec(ctx: &Context, e: &Expr, fs: &Fields, fuel: u64) -> (res: Result<
    Fields,
    TypeError,
>)
    ensures
        res == tck_record_lit(*ctx, *e, *fs, fuel as nat),
    decreases fuel as nat, *fs, 0int,
{
    match fs {
        Fields::Nil => Result::Ok(Fields::Nil),
        Fields::Cons(k, v, rest) => match tck_exec(ctx, v, fuel) {
            Result::Err(err) => Result::Err(err),
            Result::Ok(t) => if fuel <= 0 {
                Result::Err(TypeError::new(ctx, e, TypeMessage::RecursionLimit))
            } else {
                match tck_exec(ctx, &t, fuel - 1) {
                    Result::Err(err) => Result::Err(err),
                    Result::Ok(tt) => {
                        let ttn = nf_exec(&tt);
                        if is_const_type(&ttn) {
                            match tck_record_lit_exec(ctx, e, rest, fuel) {
                                Result::Err(err) => Result::Err(err),
                                Result::Ok(kts) => Result::Ok(
                                    Fields::Cons(chars_clone(k), Box::new(t), Box::new(kts)),
                                ),
                            }
                        } else {
                            Result::Err(
                                TypeError::new(
                                    ctx,
                                    e,
                                    TypeMessage::InvalidField(chars_clone(k), clone_expr(v)),
                                ),
                            )
                        }
                    },
                }
            },
        },
    }
}

fn tck_union_exec(ctx: &Context, e: &Expr, alts: &Alts, fuel: u64) -> (res: Option<TypeError>)
    ensures
        res == tck_union(*ctx, *e, *alts, fuel as nat),
    decreases fuel as nat, *alts, 0int,
{
    match alts {
        Alts::Nil => Option::None,
        Alts::Cons(k, mt, rest) => match mt {
            Option::None => tck_union_exec(ctx, e, rest, fuel),
            Option::Some(t) => match tck_exec(ctx, t, fuel) {
                Result::Err(err) => Option::Some(err),
                Result::Ok(tt) => {
                    let ttn = nf_exec(&tt);
                    if is_const_type(&ttn) {
                        tck_union_exec(ctx, e, rest, fuel)
                    } else {
                        Option::Some(
                            TypeError::new(
                                ctx,
                                e,
                                TypeMessage::InvalidAlternativeType(chars_clone(k), clone_expr(t)),
                            ),
                        )
                    }
                },
            },
        },
    }
}

fn projection_missing_exec(kts: &Fields, ls: &Labels) -> (res: Option<Chars>)
    ensures
        res == projection_missing(*kts, *ls),
    decreases *ls,
{
    match ls {
        Labels::Nil => Option::None,
        Labels::Cons(l, rest) => match crate::normalize::fields_get_exec(kts, l) {
            Option::Some(_) => projection_missing_exec(kts, rest),
            Option::None => Option::Some(chars_clone(l)),
        },
    }
}

fn merge_out_exec(
    ctx: &Context,
    e: &Expr,
    alts: &Alts,
    kts: &Fields,
    mt: &Option<Box<Expr>>,
) -> (res: Result<Expr, TypeError>)
    ensures
        res == merge_out(*ctx, *e, *alts, *kts, *mt),
{
    match mt {
        Option::Some(t) => Result::Ok(clone_expr(t)),
        Option::None => match alts {
            Alts::Nil => Result::Err(
                TypeError::new(ctx, e, TypeMessage::MissingHandler(Labels::Nil)),
            ),
            Alts::Cons(k, p, _) => match crate::normalize::fields_get_exec(kts, k) {
                Option::None => Result::Err(
                    TypeError::new(
                        ctx,
                        e,
                        TypeMessage::MissingHandler(
                            Labels::Cons(chars_clone(k), Box::new(Labels::Nil)),
                        ),
                    ),
                ),
                Option::Some(h) => match p {
                    Option::None => Result::Ok(h),
                    Option::Some(_) => match h {
                        Expr::Pi(x, _, cod) => {
                            let v = Var { name: x, idx: 0 };
                            Result::Ok(crate::subst::shift(-1, &v, &cod))
                        },
                        other => Result::Err(
                            TypeError::new(
                                ctx,
                                e,
                                TypeMessage::HandlerNotAFunction(chars_clone(k), other),
                            ),
                        ),
                    },
                },
            },
        },
    }
}

fn merge_check_alts_exec(
    ctx: &Context,
    e: &Expr,
    alts: &Alts,
    kts: &Fields,
    out: &Expr,
) -> (res: Option<TypeError>)
    ensures
        res == merge_check_alts(*ctx, *e, *alts, *kts, *out),
    decreases *alts,
{
    match alts {
        Alts::Nil => Option::None,
        Alts::Cons(k, p, rest) => match crate::normalize::fields_get_exec(kts, k) {
            Option::None => Option::Some(
                TypeError::new(
                    ctx,
                    e,
                    TypeMessage::MissingHandler(
                        Labels::Cons(chars_clone(k), Box::new(Labels::Nil)),
                    ),
                ),
            ),
            Option::Some(h) => match p {
                Option::None => if prop_equal(&h, out) {
                    merge_check_alts_exec(ctx, e, rest, kts, out)
                } else {
                    Option::Some(
                        TypeError::new(
                            ctx,
                            e,
                            TypeMessage::HandlerOutputTypeMismatch(
                                chars_clone(k),
                                clone_expr(out),
                                h,
                            ),
                        ),
                    )
                },
                Option::Some(ty2) => match h {
                    Expr::Pi(x, tin, cod) => if !prop_equal(&tin, ty2) {
                        Option::Some(
                            TypeError::new(
                                ctx,
                                e,
                                TypeMessage::HandlerInputTypeMismatch(
                                    chars_clone(k),
                                    clone_expr(ty2),
                                    *tin,
                                ),
                            ),
                        )
                    } else {
                        let v = Var { name: x, idx: 0 };
                        let outk = crate::subst::shift(-1, &v, &cod);
                        if prop_equal(&outk, out) {
                            merge_check_alts_exec(ctx, e, rest, kts, out)
                        } else {
                            Option::Some(
                                TypeError::new(
                                    ctx,
                                    e,
                                    TypeMessage::HandlerOutputTypeMismatch(
                                        chars_clone(k),
                                        clone_expr(out),
                                        outk,
                                    ),
                                ),
                            )
                        }
                    },
                    other => Option::Some(
                        TypeError::new(
                            ctx,
                            e,
                            TypeMessage::HandlerNotAFunction(chars_clone(k), other),
                        ),
                    ),
                },
            },
        },
    }
}

fn merge_unused_handler_exec(kts: &Fields, alts: &Alts) -> (res: Option<Chars>)
    ensures
        res == merge_unused_handler(*kts, *alts),
    decreases *kts,
{
    match kts {
        Fields::Nil => Option::None,
        Fields::Cons(k, _, rest) => if crate::builder::alts_has_exec(alts, k) {
            merge_unused_handler_exec(rest, alts)
        } else {
            Option::Some(chars_clone(k))
        },
    }
}

} // verus!

verus! {

/// The fragment alpha-equivalence compares: universes, variables,
/// dependent function types, applications, built-ins, records, unions and
/// ground literals.  A lambda is never compared structurally, so a normal
/// form holding one falls outside the fragment.
pub open spec fn alpha_comparable(e: Expr) -> bool
    decreases e,
{
    match e {
        Expr::Const(_) => true,
        Expr::Var(_) => true,
        Expr::Pi(_, t, b) => alpha_comparable(*t) && alpha_comparable(*b),
        Expr::App(f, a) => alpha_comparable(*f) && alpha_comparable(*a),
        Expr::Builtin(_) => true,
        Expr::Record(fs) => alpha_comparable_fields(fs),
        Expr::RecordLit(fs) => alpha_comparable_fields(fs),
        Expr::Union(alts) => alpha_comparable_alts(alts),
        Expr::BoolLit(_) => true,
        Expr::NaturalLit(_) => true,
        Expr::IntegerLit(_) => true,
        Expr::DoubleLit(_) => true,
        _ => false,
    }
}

/// [`alpha_comparable`] through each field value.
pub open spec fn alpha_comparable_fields(fs: Fields) -> bool
    decreases fs,
{
    match fs {
        Fields::Nil => true,
        Fields::Cons(_, v, rest) => alpha_comparable(*v) && alpha_comparable_fields(*rest),
    }
}

/// [`alpha_comparable`] through each alternative's payload type.
pub open spec fn alpha_comparable_alts(alts: Alts) -> bool
    decreases alts,
{
    match alts {
        Alts::Nil => true,
        Alts::Cons(_, v, rest) => (match v {
            Option::None => true,
            Option::Some(t) => alpha_comparable(*t),
        }) && alpha_comparable_alts(*rest),
    }
}

/// Every entry of the renaming stack pairs a name with itself.
pub open spec fn pairs_refl(ctx: NamePairs) -> bool
    decreases ctx,
{
    match ctx {
        NamePairs::Nil => true,
        NamePairs::Cons(xl, xr, rest) => xl == xr && pairs_refl(*rest),
    }
}

proof fn lemma_match_vars_refl(v: Var, ctx: NamePairs)
    requires
        pairs_refl(ctx),
    ensures
        match_vars(v, v, ctx),
    decreases ctx,
{
    match ctx {
        NamePairs::Nil => {},
        NamePairs::Cons(xl, _, rest) => {
            if v.name == xl && v.idx == 0 {
            } else {
                let nl: u64 = if v.name == xl {
                    (v.idx - 1) as u64
                } else {
                    v.idx
                };
                lemma_match_vars_refl(Var { name: v.name, idx: nl }, *rest);
            }
        },
    }
}

proof fn lemma_alpha_eq_refl(e: Expr, ctx: NamePairs)
    requires
        alpha_comparable(e),
        pairs_refl(ctx),
    ensures
        alpha_eq(e, e, ctx),
    decreases e,
{
    match e {
        Expr::Var(v) => {
            lemma_match_vars_refl(v, ctx);
        },
        Expr::Pi(x, t, b) => {
            lemma_alpha_eq_refl(*t, ctx);
            lemma_alpha_eq_refl(*b, NamePairs::Cons(x, x, Box::new(ctx)));
        },
        Expr::App(f, a) => {
            lemma_alpha_eq_refl(*f, ctx);
            lemma_alpha_eq_refl(*a, ctx);
        },
        Expr::Record(fs) => {
            lemma_alpha_eq_refl_fields(fs, ctx);
        },
        Expr::RecordLit(fs) => {
            lemma_alpha_eq_refl_fields(fs, ctx);
        },
        Expr::Union(alts) => {
            lemma_alpha_eq_refl_alts(alts, ctx);
        },
        _ => {},
    }
}

proof fn lemma_alpha_eq_refl_fields(fs: Fields, ctx: NamePairs)
    requires
        alpha_comparable_fields(fs),
        pairs_refl(ctx),
    ensures
        alpha_eq_fields(fs, fs, ctx),
    decreases fs,
{
    match fs {
        Fields::Nil => {},
        Fields::Cons(_, v, rest) => {
            lemma_alpha_eq_refl(*v, ctx);
            lemma_alpha_eq_refl_fields(*rest, ctx);
        },
    }
}

proof fn lemma_alpha_eq_refl_alts(alts: Alts, ctx: NamePairs)
    requires
        alpha_comparable_alts(alts),
        pairs_refl(ctx),
    ensures
        alpha_eq_alts(alts, alts, ctx),
    decreases alts,
{
    match alts {
        Alts::Nil => {},
        Alts::Cons(_, v, rest) => {
            match v {
                Option::None => {},
                Option::Some(t) => {
                    lemma_alpha_eq_refl(*t, ctx);
                },
            }
            lemma_alpha_eq_refl_alts(*rest, ctx);
        },
    }
}

/// Judgmental equality is reflexive on every expression whose normal form
/// lies in the compared fragment; a term normalizing to a lambda is the
/// one shape left out, since only types are compared.
pub proof fn lemma_judg_eq_reflexive(e: Expr, fuel: nat)
    requires
        alpha_comparable(nrm(e, fuel)),
    ensures
        judg_eq(e, e, fuel),
{
    lemma_alpha_eq_refl(nrm(e, fuel), NamePairs::Nil);
}

/// The renaming stack with the sides of every pair exchanged.
pub open spec fn flip_pairs(ctx: NamePairs) -> NamePairs
    decreases ctx,
{
    match ctx {
        NamePairs::Nil => NamePairs::Nil,
        NamePairs::Cons(xl, xr, rest) => NamePairs::Cons(xr, xl, Box::new(flip_pairs(*rest))),
    }
}

proof fn lemma_match_vars_sym(vl: Var, vr: Var, ctx: NamePairs)
    ensures
        match_vars(vl, vr, ctx) == match_vars(vr, vl, flip_pairs(ctx)),
    decreases ctx,
{
    match ctx {
        NamePairs::Nil => {},
        NamePairs::Cons(xl, xr, rest) => {
            let bound_l = vl.name == xl && vl.idx == 0;
            let bound_r = vr.name == xr && vr.idx == 0;
            if bound_l || bound_r {
            } else {
                let nl: u64 = if vl.name == xl {
                    (vl.idx - 1) as u64
                } else {
                    vl.idx
                };
                let nr: u64 = if vr.name == xr {
                    (vr.idx - 1) as u64
                } else {
                    vr.idx
                };
                lemma_match_vars_sym(
                    Var { name: vl.name, idx: nl },
                    Var { name: vr.name, idx: nr },
                    *rest,
                );
            }
        },
    }
}

proof fn lemma_alpha_eq_sym(a: Expr, b: Expr, ctx: NamePairs)
    ensures
        alpha_eq(a, b, ctx) == alpha_eq(b, a, flip_pairs(ctx)),
    decreases a,
{
    match (a, b) {
        (Expr::Var(vl), Expr::Var(vr)) => {
            lemma_match_vars_sym(vl, vr, ctx);
        },
        (Expr::Pi(xl, tl, bl), Expr::Pi(xr, tr, br)) => {
            lemma_alpha_eq_sym(*tl, *tr, ctx);
            lemma_alpha_eq_sym(*bl, *br, NamePairs::Cons(xl, xr, Box::new(ctx)));
        },
        (Expr::App(fl, al), Expr::App(fr, ar)) => {
            lemma_alpha_eq_sym(*fl, *fr, ctx);
            lemma_alpha_eq_sym(*al, *ar, ctx);
        },
        (Expr::Record(fl), Expr::Record(fr)) => {
            lemma_alpha_eq_sym_fields(fl, fr, ctx);
        },
        (Expr::RecordLit(fl), Expr::RecordLit(fr)) => {
            lemma_alpha_eq_sym_fields(fl, fr, ctx);
        },
        (Expr::Union(al), Expr::Union(ar)) => {
            lemma_alpha_eq_sym_alts(al, ar, ctx);
        },
        _ => {},
    }
}

proof fn lemma_alpha_eq_sym_fields(fl: Fields, fr: Fields, ctx: NamePairs)
    ensures
        alpha_eq_fields(fl, fr, ctx) == alpha_eq_fields(fr, fl, flip_pairs(ctx)),
    decreases fl,
{
    match (fl, fr) {
        (Fields::Cons(_, vl, rl), Fields::Cons(_, vr, rr)) => {
            lemma_alpha_eq_sym(*vl, *vr, ctx);
            lemma_alpha_eq_sym_fields(*rl, *rr, ctx);
        },
        _ => {},
    }
}

proof fn lemma_alpha_eq_sym_alts(al: Alts, ar: Alts, ctx: NamePairs)
    ensures
        alpha_eq_alts(al, ar, ctx) == alpha_eq_alts(ar, al, flip_pairs(ctx)),
    decreases al,
{
    match (al, ar) {
        (Alts::Cons(_, vl, rl), Alts::Cons(_, vr, rr)) => {
            match (vl, vr) {
                (Option::Some(tl), Option::Some(tr)) => {
                    lemma_alpha_eq_sym(*tl, *tr, ctx);
                },
                _ => {},
            }
            lemma_alpha_eq_sym_alts(*rl, *rr, ctx);
        },
        _ => {},
    }
}

/// Judgmental equality is symmetric.
pub proof fn lemma_judg_eq_symmetric(a: Expr, b: Expr, fuel: nat)
    ensures
        judg_eq(a, b, fuel) == judg_eq(b, a, fuel),
{
    lemma_alpha_eq_sym(nrm(a, fuel), nrm(b, fuel), NamePairs::Nil);
}

} // verus!

verus! {

/// Judgmental equality is consistent with normalization: comparing two
/// terms and comparing their normal forms is the same question, whenever
/// both normal forms are of the shape [`crate::normalize::is_reduced`]
/// covers; a rarer stuck computation left in a normal form is outside the
/// stated shape.
pub proof fn lemma_judg_eq_normalization_consistent(a: Expr, b: Expr, fuel: nat)
    requires
        crate::normalize::is_reduced(nrm(a, fuel)),
        crate::normalize::is_reduced(nrm(b, fuel)),
    ensures
        judg_eq(nrm(a, fuel), nrm(b, fuel), fuel) == judg_eq(a, b, fuel),
{
    crate::normalize::lemma_normalize_fixes_reduced(nrm(a, fuel), fuel);
    crate::normalize::lemma_normalize_fixes_reduced(nrm(b, fuel), fuel);
}

} // verus!
