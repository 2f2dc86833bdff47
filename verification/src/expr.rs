//! The expression tree: the immutable, structurally recursive term
//! representation shared by every phase of the interpreter core.
//!
//! Every piece of the tree is built from enums whose recursion goes through
//! `Box`, so that equality of two trees in specifications is plain structural
//! equality.  Labels and text chunks are held as [`Chars`], a character list
//! with the same property.

use vstd::prelude::*;
use vstd::string::StrSliceExecFns;

verus! {

/// A label or a chunk of literal text: a structural list of characters.
///
/// Names of variables, record fields and union alternatives are `Chars`
/// rather than `String` so that two equal names are equal values.
#[derive(Debug, PartialEq, Eq)]
pub enum Chars {
    Nil,
    Cons(char, Box<Chars>),
}

/// The sequence of characters a [`Chars`] value spells.
pub open spec fn chars_seq(c: Chars) -> Seq<char>
    decreases c,
{
    match c {
        Chars::Nil => Seq::empty(),
        Chars::Cons(ch, rest) => seq![ch] + chars_seq(*rest),
    }
}

/// Strict lexicographic order on character lists, by code point.
pub open spec fn chars_lt(a: Chars, b: Chars) -> bool
    decreases a,
{
    match (a, b) {
        (Chars::Nil, Chars::Nil) => false,
        (Chars::Nil, Chars::Cons(_, _)) => true,
        (Chars::Cons(_, _), Chars::Nil) => false,
        (Chars::Cons(c1, t1), Chars::Cons(c2, t2)) => {
            (c1 as u32) < (c2 as u32) || (c1 == c2 && chars_lt(*t1, *t2))
        }
    }
}

/// Structurally clones a character list; the copy is equal to the original.
pub fn chars_clone(c: &Chars) -> (res: Chars)
    ensures
        res == *c,
    decreases *c,
{
    match c {
        Chars::Nil => Chars::Nil,
        Chars::Cons(ch, rest) => Chars::Cons(*ch, Box::new(chars_clone(rest))),
    }
}

/// Decides equality of two character lists.
pub fn chars_eq(a: &Chars, b: &Chars) -> (res: bool)
    ensures
        res == (*a == *b),
    decreases *a,
{
    match (a, b) {
        (Chars::Nil, Chars::Nil) => true,
        (Chars::Cons(c1, t1), Chars::Cons(c2, t2)) => *c1 == *c2 && chars_eq(t1, t2),
        _ => false,
    }
}

/// Decides the strict lexicographic order [`chars_lt`].
pub fn chars_less(a: &Chars, b: &Chars) -> (res: bool)
    ensures
        res == chars_lt(*a, *b),
    decreases *a,
{
    match (a, b) {
        (Chars::Nil, Chars::Nil) => false,
        (Chars::Nil, Chars::Cons(_, _)) => true,
        (Chars::Cons(_, _), Chars::Nil) => false,
        (Chars::Cons(c1, t1), Chars::Cons(c2, t2)) => {
            (*c1 as u32) < (*c2 as u32) || (*c1 == *c2 && chars_less(t1, t2))
        }
    }
}

/// Builds the suffix of `s` that starts at character `i` as a [`Chars`].
fn chars_of_suffix(s: &str, i: usize, n: usize) -> (res: Chars)
    requires
        n == s@.len(),
        i <= n,
    ensures
        chars_seq(res) == s@.subrange(i as int, n as int),
    decreases n - i,
{
    if i == n {
        assert(s@.subrange(i as int, n as int) =~= Seq::<char>::empty());
        Chars::Nil
    } else {
        let ch = s.get_char(i);
        let rest = chars_of_suffix(s, i + 1, n);
        proof {
            assert(s@.subrange(i as int, n as int) =~= seq![s@[i as int]] + s@.subrange(
                i + 1,
                n as int,
            ));
        }
        Chars::Cons(ch, Box::new(rest))
    }
}

/// Converts borrowed text into a [`Chars`] spelling the same characters.
pub fn chars_from_str(s: &str) -> (res: Chars)
    ensures
        chars_seq(res) == s@,
{
    let n = s.unicode_len();
    let res = chars_of_suffix(s, 0, n);
    proof {
        assert(s@.subrange(0, s@.len() as int) =~= s@);
    }
    res
}

/// The three universe constants, lowest stratum first.
///
/// The successor axiom types each stratum at the next one; the topmost
/// stratum has no type.
#[derive(Debug, Clone, Copy, PartialEq, Eq, Structural)]
pub enum Const {
    Type,
    Kind,
    Sort,
}

/// The built-in identifiers of the language: ground types, type
/// constructors, and the eliminators over naturals, lists and optionals.
#[derive(Debug, Clone, Copy, PartialEq, Eq, Structural)]
pub enum Builtin {
    Bool,
    Natural,
    Integer,
    Double,
    Text,
    List,
    Optional,
    OptionalNone,
    NaturalBuild,
    NaturalFold,
    NaturalIsZero,
    NaturalEven,
    NaturalOdd,
    NaturalToInteger,
    NaturalShow,
    IntegerToDouble,
    IntegerShow,
    DoubleShow,
    ListBuild,
    ListFold,
    ListLength,
    ListHead,
    ListLast,
    ListIndexed,
    ListReverse,
    OptionalFold,
    OptionalBuild,
    TextShow,
}

/// The binary operators.
#[derive(Debug, Clone, Copy, PartialEq, Eq, Structural)]
pub enum BinOp {
    BoolAnd,
    BoolOr,
    BoolEQ,
    BoolNE,
    NaturalPlus,
    NaturalTimes,
    TextAppend,
    ListAppend,
}

/// A variable reference: a name plus a de Bruijn index counting how many
/// enclosing binders of the *same* name lie between the reference and its
/// target binder.
#[derive(Debug, PartialEq, Eq)]
pub struct Var {
    pub name: Chars,
    pub idx: u64,
}

/// An expression node.
///
/// Record and union fields are kept sorted by label (see
/// [`crate::builder`]); the normalizer and the type checker preserve that
/// order, so judgmental equality can compare them by a pairwise walk.
///
/// There is no variant for an unresolved import: this core accepts only
/// fully resolved trees, so the foreign leaf of the pre-resolution tree is
/// uninhabited here by construction.
#[derive(Debug, PartialEq, Eq)]
pub enum Expr {
    /// A universe constant.
    Const(Const),
    /// A variable reference.
    Var(Var),
    /// Lambda abstraction: name, domain type, body.
    Lam(Chars, Box<Expr>, Box<Expr>),
    /// Dependent function type: name, domain, codomain.
    Pi(Chars, Box<Expr>, Box<Expr>),
    /// Function application.
    App(Box<Expr>, Box<Expr>),
    /// Let binding: name, optional annotation, bound value, body.
    Let(Chars, Option<Box<Expr>>, Box<Expr>, Box<Expr>),
    /// Type annotation: term, stated type.
    Annot(Box<Expr>, Box<Expr>),
    /// A built-in identifier.
    Builtin(Builtin),
    /// Boolean literal.
    BoolLit(bool),
    /// Conditional.
    BoolIf(Box<Expr>, Box<Expr>, Box<Expr>),
    /// Natural number literal.
    NaturalLit(u64),
    /// Integer literal.
    IntegerLit(i64),
    /// Double literal, held as its IEEE-754 bit pattern; opaque to the core.
    DoubleLit(u64),
    /// Text literal with interpolation holes.
    TextLit(Texts),
    /// Binary operator application.
    BinOp(BinOp, Box<Expr>, Box<Expr>),
    /// Empty list literal carrying its element type.
    EmptyListLit(Box<Expr>),
    /// Non-empty list literal.
    NEListLit(Exprs),
    /// Optional literal in list syntax: element type, zero or more elements.
    /// More than one element is rejected by the type checker.
    OptionalLit(Box<Expr>, Exprs),
    /// Non-empty optional literal.
    SomeLit(Box<Expr>),
    /// Record type: sorted, label-unique field types.
    Record(Fields),
    /// Record literal: sorted, label-unique field values.
    RecordLit(Fields),
    /// Union type: sorted, label-unique alternatives, each with an optional
    /// payload type.
    Union(Alts),
    /// Union literal: tag, payload, remaining alternatives.
    UnionLit(Chars, Box<Expr>, Alts),
    /// Field selection.
    Field(Box<Expr>, Chars),
    /// Multi-field projection.
    Projection(Box<Expr>, Labels),
    /// Pattern match of a union value against a record of handlers, with an
    /// optional result type annotation.
    Merge(Box<Expr>, Box<Expr>, Option<Box<Expr>>),
}

/// A list of expressions.
#[derive(Debug, PartialEq, Eq)]
pub enum Exprs {
    Nil,
    Cons(Box<Expr>, Box<Exprs>),
}

/// A list of labelled expressions: record fields.
#[derive(Debug, PartialEq, Eq)]
pub enum Fields {
    Nil,
    Cons(Chars, Box<Expr>, Box<Fields>),
}

/// A list of labelled optional expressions: union alternatives.
#[derive(Debug, PartialEq, Eq)]
pub enum Alts {
    Nil,
    Cons(Chars, Option<Box<Expr>>, Box<Alts>),
}

/// A list of labels.
#[derive(Debug, PartialEq, Eq)]
pub enum Labels {
    Nil,
    Cons(Chars, Box<Labels>),
}

/// The chunks of a text literal: fixed text and interpolation holes in
/// source order.
#[derive(Debug, PartialEq, Eq)]
pub enum Texts {
    Nil,
    /// A chunk of fixed text.
    Text(Chars, Box<Texts>),
    /// An interpolated expression.
    Interp(Box<Expr>, Box<Texts>),
}

} // verus!

verus! {

/// Structurally clones a variable reference.
pub fn clone_var(v: &Var) -> (res: Var)
    ensures
        res == *v,
{
    Var { name: chars_clone(&v.name), idx: v.idx }
}

/// Structurally clones an expression; the copy is equal to the original.
pub fn clone_expr(e: &Expr) -> (res: Expr)
    ensures
        res == *e,
    decreases *e,
{
    match e {
        Expr::Const(c) => Expr::Const(*c),
        Expr::Var(v) => Expr::Var(clone_var(v)),
        Expr::Lam(x, t, b) => Expr::Lam(
            chars_clone(x),
            Box::new(clone_expr(t)),
            Box::new(clone_expr(b)),
        ),
        Expr::Pi(x, t, b) => Expr::Pi(
            chars_clone(x),
            Box::new(clone_expr(t)),
            Box::new(clone_expr(b)),
        ),
        Expr::App(f, a) => Expr::App(Box::new(clone_expr(f)), Box::new(clone_expr(a))),
        Expr::Let(x, t, r, b) => Expr::Let(
            chars_clone(x),
            clone_opt_expr(t),
            Box::new(clone_expr(r)),
            Box::new(clone_expr(b)),
        ),
        Expr::Annot(x, t) => Expr::Annot(Box::new(clone_expr(x)), Box::new(clone_expr(t))),
        Expr::Builtin(b) => Expr::Builtin(*b),
        Expr::BoolLit(b) => Expr::BoolLit(*b),
        Expr::BoolIf(c, t, f) => Expr::BoolIf(
            Box::new(clone_expr(c)),
            Box::new(clone_expr(t)),
            Box::new(clone_expr(f)),
        ),
        Expr::NaturalLit(n) => Expr::NaturalLit(*n),
        Expr::IntegerLit(n) => Expr::IntegerLit(*n),
        Expr::DoubleLit(n) => Expr::DoubleLit(*n),
        Expr::TextLit(ts) => Expr::TextLit(clone_texts(ts)),
        Expr::BinOp(op, l, r) => Expr::BinOp(
            *op,
            Box::new(clone_expr(l)),
            Box::new(clone_expr(r)),
        ),
        Expr::EmptyListLit(t) => Expr::EmptyListLit(Box::new(clone_expr(t))),
        Expr::NEListLit(xs) => Expr::NEListLit(clone_exprs(xs)),
        Expr::OptionalLit(t, xs) => Expr::OptionalLit(Box::new(clone_expr(t)), clone_exprs(xs)),
        Expr::SomeLit(x) => Expr::SomeLit(Box::new(clone_expr(x))),
        Expr::Record(fs) => Expr::Record(clone_fields(fs)),
        Expr::RecordLit(fs) => Expr::RecordLit(clone_fields(fs)),
        Expr::Union(alts) => Expr::Union(clone_alts(alts)),
        Expr::UnionLit(l, v, alts) => Expr::UnionLit(
            chars_clone(l),
            Box::new(clone_expr(v)),
            clone_alts(alts),
        ),
        Expr::Field(r, x) => Expr::Field(Box::new(clone_expr(r)), chars_clone(x)),
        Expr::Projection(r, ls) => Expr::Projection(Box::new(clone_expr(r)), clone_labels(ls)),
        Expr::Merge(h, u, t) => Expr::Merge(
            Box::new(clone_expr(h)),
            Box::new(clone_expr(u)),
            clone_opt_expr(t),
        ),
    }
}

/// Structurally clones an optional boxed expression.
pub fn clone_opt_expr(o: &Option<Box<Expr>>) -> (res: Option<Box<Expr>>)
    ensures
        res == *o,
    decreases *o,
{
    match o {
        Option::None => Option::None,
        Option::Some(e) => Option::Some(Box::new(clone_expr(e))),
    }
}

/// Structurally clones an expression list.
pub fn clone_exprs(xs: &Exprs) -> (res: Exprs)
    ensures
        res == *xs,
    decreases *xs,
{
    match xs {
        Exprs::Nil => Exprs::Nil,
        Exprs::Cons(x, rest) => Exprs::Cons(Box::new(clone_expr(x)), Box::new(clone_exprs(rest))),
    }
}

/// Structurally clones a field list.
pub fn clone_fields(fs: &Fields) -> (res: Fields)
    ensures
        res == *fs,
    decreases *fs,
{
    match fs {
        Fields::Nil => Fields::Nil,
        Fields::Cons(k, v, rest) => Fields::Cons(
            chars_clone(k),
            Box::new(clone_expr(v)),
            Box::new(clone_fields(rest)),
        ),
    }
}

/// Structurally clones an alternative list.
pub fn clone_alts(alts: &Alts) -> (res: Alts)
    ensures
        res == *alts,
    decreases *alts,
{
    match alts {
        Alts::Nil => Alts::Nil,
        Alts::Cons(k, v, rest) => Alts::Cons(
            chars_clone(k),
            clone_opt_expr(v),
            Box::new(clone_alts(rest)),
        ),
    }
}

/// Structurally clones a label list.
pub fn clone_labels(ls: &Labels) -> (res: Labels)
    ensures
        res == *ls,
    decreases *ls,
{
    match ls {
        Labels::Nil => Labels::Nil,
        Labels::Cons(k, rest) => Labels::Cons(chars_clone(k), Box::new(clone_labels(rest))),
    }
}

/// Structurally clones a text chunk list.
pub fn clone_texts(ts: &Texts) -> (res: Texts)
    ensures
        res == *ts,
    decreases *ts,
{
    match ts {
        Texts::Nil => Texts::Nil,
        Texts::Text(s, rest) => Texts::Text(chars_clone(s), Box::new(clone_texts(rest))),
        Texts::Interp(e, rest) => Texts::Interp(
            Box::new(clone_expr(e)),
            Box::new(clone_texts(rest)),
        ),
    }
}

} // verus!

verus! {

/// Decides structural equality of two expressions.
pub fn expr_eq(a: &Expr, b: &Expr) -> (res: bool)
    ensures
        res == (*a == *b),
    decreases *a,
{
    match (a, b) {
        (Expr::Const(c1), Expr::Const(c2)) => *c1 == *c2,
        (Expr::Var(v1), Expr::Var(v2)) => chars_eq(&v1.name, &v2.name) && v1.idx == v2.idx,
        (Expr::Lam(x1, t1, b1), Expr::Lam(x2, t2, b2)) => chars_eq(x1, x2) && expr_eq(t1, t2)
            && expr_eq(b1, b2),
        (Expr::Pi(x1, t1, b1), Expr::Pi(x2, t2, b2)) => chars_eq(x1, x2) && expr_eq(t1, t2)
            && expr_eq(b1, b2),
        (Expr::App(f1, a1), Expr::App(f2, a2)) => expr_eq(f1, f2) && expr_eq(a1, a2),
        (Expr::Let(x1, t1, r1, b1), Expr::Let(x2, t2, r2, b2)) => chars_eq(x1, x2)
            && opt_expr_eq(t1, t2) && expr_eq(r1, r2) && expr_eq(b1, b2),
        (Expr::Annot(x1, t1), Expr::Annot(x2, t2)) => expr_eq(x1, x2) && expr_eq(t1, t2),
        (Expr::Builtin(b1), Expr::Builtin(b2)) => *b1 == *b2,
        (Expr::BoolLit(b1), Expr::BoolLit(b2)) => *b1 == *b2,
        (Expr::BoolIf(c1, t1, f1), Expr::BoolIf(c2, t2, f2)) => expr_eq(c1, c2) && expr_eq(t1, t2)
            && expr_eq(f1, f2),
        (Expr::NaturalLit(n1), Expr::NaturalLit(n2)) => *n1 == *n2,
        (Expr::IntegerLit(n1), Expr::IntegerLit(n2)) => *n1 == *n2,
        (Expr::DoubleLit(n1), Expr::DoubleLit(n2)) => *n1 == *n2,
        (Expr::TextLit(t1), Expr::TextLit(t2)) => texts_eq(t1, t2),
        (Expr::BinOp(o1, l1, r1), Expr::BinOp(o2, l2, r2)) => *o1 == *o2 && expr_eq(l1, l2)
            && expr_eq(r1, r2),
        (Expr::EmptyListLit(t1), Expr::EmptyListLit(t2)) => expr_eq(t1, t2),
        (Expr::NEListLit(x1), Expr::NEListLit(x2)) => exprs_eq(x1, x2),
        (Expr::OptionalLit(t1, x1), Expr::OptionalLit(t2, x2)) => expr_eq(t1, t2)
            && exprs_eq(x1, x2),
        (Expr::SomeLit(x1), Expr::SomeLit(x2)) => expr_eq(x1, x2),
        (Expr::Record(f1), Expr::Record(f2)) => fields_eq(f1, f2),
        (Expr::RecordLit(f1), Expr::RecordLit(f2)) => fields_eq(f1, f2),
        (Expr::Union(a1), Expr::Union(a2)) => alts_eq(a1, a2),
        (Expr::UnionLit(l1, v1, a1), Expr::UnionLit(l2, v2, a2)) => chars_eq(l1, l2)
            && expr_eq(v1, v2) && alts_eq(a1, a2),
        (Expr::Field(r1, x1), Expr::Field(r2, x2)) => expr_eq(r1, r2) && chars_eq(x1, x2),
        (Expr::Projection(r1, l1), Expr::Projection(r2, l2)) => expr_eq(r1, r2)
            && labels_eq(l1, l2),
        (Expr::Merge(h1, u1, t1), Expr::Merge(h2, u2, t2)) => expr_eq(h1, h2) && expr_eq(u1, u2)
            && opt_expr_eq(t1, t2),
        _ => false,
    }
}

/// Decides equality of two optional boxed expressions.
pub fn opt_expr_eq(a: &Option<Box<Expr>>, b: &Option<Box<Expr>>) -> (res: bool)
    ensures
        res == (*a == *b),
    decreases *a,
{
    match (a, b) {
        (Option::None, Option::None) => true,
        (Option::Some(x), Option::Some(y)) => expr_eq(x, y),
        _ => false,
    }
}

/// Decides equality of two expression lists.
pub fn exprs_eq(a: &Exprs, b: &Exprs) -> (res: bool)
    ensures
        res == (*a == *b),
    decreases *a,
{
    match (a, b) {
        (Exprs::Nil, Exprs::Nil) => true,
        (Exprs::Cons(x1, r1), Exprs::Cons(x2, r2)) => expr_eq(x1, x2) && exprs_eq(r1, r2),
        _ => false,
    }
}

/// Decides equality of two field lists.
pub fn fields_eq(a: &Fields, b: &Fields) -> (res: bool)
    ensures
        res == (*a == *b),
    decreases *a,
{
    match (a, b) {
        (Fields::Nil, Fields::Nil) => true,
        (Fields::Cons(k1, v1, r1), Fields::Cons(k2, v2, r2)) => chars_eq(k1, k2)
            && expr_eq(v1, v2) && fields_eq(r1, r2),
        _ => false,
    }
}

/// Decides equality of two alternative lists.
pub fn alts_eq(a: &Alts, b: &Alts) -> (res: bool)
    ensures
        res == (*a == *b),
    decreases *a,
{
    match (a, b) {
        (Alts::Nil, Alts::Nil) => true,
        (Alts::Cons(k1, v1, r1), Alts::Cons(k2, v2, r2)) => chars_eq(k1, k2) && opt_expr_eq(v1, v2)
            && alts_eq(r1, r2),
        _ => false,
    }
}

/// Decides equality of two label lists.
pub fn labels_eq(a: &Labels, b: &Labels) -> (res: bool)
    ensures
        res == (*a == *b),
    decreases *a,
{
    match (a, b) {
        (Labels::Nil, Labels::Nil) => true,
        (Labels::Cons(k1, r1), Labels::Cons(k2, r2)) => chars_eq(k1, k2) && labels_eq(r1, r2),
        _ => false,
    }
}

/// Decides equality of two text chunk lists.
pub fn texts_eq(a: &Texts, b: &Texts) -> (res: bool)
    ensures
        res == (*a == *b),
    decreases *a,
{
    match (a, b) {
        (Texts::Nil, Texts::Nil) => true,
        (Texts::Text(s1, r1), Texts::Text(s2, r2)) => chars_eq(s1, s2) && texts_eq(r1, r2),
        (Texts::Interp(e1, r1), Texts::Interp(e2, r2)) => expr_eq(e1, e2) && texts_eq(r1, r2),
        _ => false,
    }
}

} // verus!

verus! {

impl Clone for Chars {
    /// The copy is equal to the original.
    fn clone(&self) -> (res: Self)
        ensures
            res == *self,
    {
        chars_clone(self)
    }
}

impl Clone for Var {
    /// The copy is equal to the original.
    fn clone(&self) -> (res: Self)
        ensures
            res == *self,
    {
        clone_var(self)
    }
}

impl Clone for Expr {
    /// The copy is equal to the original.
    fn clone(&self) -> (res: Self)
        ensures
            res == *self,
    {
        clone_expr(self)
    }
}

} // verus!
