//! Canonical construction of record and union nodes.
//!
//! Records and unions are label-unique maps that every phase keeps sorted
//! by label, so that judgmental equality can compare two of them by one
//! pairwise walk.  The inserts here place a label at its sorted position
//! whatever order the caller feeds them in, replacing the payload of a
//! label that is already present.

use vstd::prelude::*;

use crate::expr::{Alts, Chars, Expr, Fields};
use crate::expr::{chars_eq, chars_less, chars_lt};

verus! {

/// The field labels appear in strictly increasing order, so every label is
/// unique.
pub open spec fn fields_sorted(fs: Fields) -> bool
    decreases fs,
{
    match fs {
        Fields::Nil => true,
        Fields::Cons(k, _, rest) => match *rest {
            Fields::Nil => true,
            Fields::Cons(k2, _, _) => chars_lt(k, k2) && fields_sorted(*rest),
        },
    }
}

/// The alternative labels appear in strictly increasing order.
pub open spec fn alts_sorted(alts: Alts) -> bool
    decreases alts,
{
    match alts {
        Alts::Nil => true,
        Alts::Cons(k, _, rest) => match *rest {
            Alts::Nil => true,
            Alts::Cons(k2, _, _) => chars_lt(k, k2) && alts_sorted(*rest),
        },
    }
}

/// Whether a label occurs in an alternative list.
pub open spec fn alts_has(alts: Alts, k: Chars) -> bool
    decreases alts,
{
    match alts {
        Alts::Nil => false,
        Alts::Cons(k2, _, rest) => k2 == k || alts_has(*rest, k),
    }
}

/// Inserts a field at its sorted position, replacing an equal label.
pub open spec fn fields_insert(fs: Fields, k: Chars, v: Expr) -> Fields
    decreases fs,
{
    match fs {
        Fields::Nil => Fields::Cons(k, Box::new(v), Box::new(Fields::Nil)),
        Fields::Cons(k2, v2, rest) => if chars_lt(k, k2) {
            Fields::Cons(k, Box::new(v), Box::new(Fields::Cons(k2, v2, rest)))
        } else if k == k2 {
            Fields::Cons(k, Box::new(v), rest)
        } else {
            Fields::Cons(k2, v2, Box::new(fields_insert(*rest, k, v)))
        },
    }
}

/// Inserts an alternative at its sorted position, replacing an equal
/// label.
pub open spec fn alts_insert(alts: Alts, k: Chars, v: Option<Box<Expr>>) -> Alts
    decreases alts,
{
    match alts {
        Alts::Nil => Alts::Cons(k, v, Box::new(Alts::Nil)),
        Alts::Cons(k2, v2, rest) => if chars_lt(k, k2) {
            Alts::Cons(k, v, Box::new(Alts::Cons(k2, v2, rest)))
        } else if k == k2 {
            Alts::Cons(k, v, rest)
        } else {
            Alts::Cons(k2, v2, Box::new(alts_insert(*rest, k, v)))
        },
    }
}

/// Inserts a field at its sorted position; see [`fields_insert`].
pub fn fields_insert_exec(fs: Fields, k: Chars, v: Expr) -> (res: Fields)
    ensures
        res == fields_insert(fs, k, v),
    decreases fs,
{
    match fs {
        Fields::Nil => Fields::Cons(k, Box::new(v), Box::new(Fields::Nil)),
        Fields::Cons(k2, v2, rest) => if chars_less(&k, &k2) {
            Fields::Cons(k, Box::new(v), Box::new(Fields::Cons(k2, v2, rest)))
        } else if chars_eq(&k, &k2) {
            Fields::Cons(k, Box::new(v), rest)
        } else {
            Fields::Cons(k2, v2, Box::new(fields_insert_exec(*rest, k, v)))
        },
    }
}

/// Inserts an alternative at its sorted position; see [`alts_insert`].
pub fn alts_insert_exec(alts: Alts, k: Chars, v: Option<Box<Expr>>) -> (res: Alts)
    ensures
        res == alts_insert(alts, k, v),
    decreases alts,
{
    match alts {
        Alts::Nil => Alts::Cons(k, v, Box::new(Alts::Nil)),
        Alts::Cons(k2, v2, rest) => if chars_less(&k, &k2) {
            Alts::Cons(k, v, Box::new(Alts::Cons(k2, v2, rest)))
        } else if chars_eq(&k, &k2) {
            Alts::Cons(k, v, rest)
        } else {
            Alts::Cons(k2, v2, Box::new(alts_insert_exec(*rest, k, v)))
        },
    }
}

/// Whether a label occurs in an alternative list.
pub fn alts_has_exec(alts: &Alts, k: &Chars) -> (res: bool)
    ensures
        res == alts_has(*alts, *k),
    decreases *alts,
{
    match alts {
        Alts::Nil => false,
        Alts::Cons(k2, _, rest) => chars_eq(k2, k) || alts_has_exec(rest, k),
    }
}

/// The lexicographic order on labels is total: two labels are equal or one
/// is strictly below the other.
pub proof fn lemma_chars_order_total(a: Chars, b: Chars)
    ensures
        chars_lt(a, b) || chars_lt(b, a) || a == b,
    decreases a,
{
    match (a, b) {
        (Chars::Cons(c1, t1), Chars::Cons(c2, t2)) => {
            if c1 == c2 {
                lemma_chars_order_total(*t1, *t2);
            }
        },
        _ => {},
    }
}

/// Record/union key ordering: inserting a field into a sorted field list
/// keeps the labels sorted, whatever order the caller inserts keys in, and
/// the inserted label is afterwards bound to the inserted value.
pub proof fn lemma_fields_insert_sorted(fs: Fields, k: Chars, v: Expr)
    requires
        fields_sorted(fs),
    ensures
        fields_sorted(fields_insert(fs, k, v)),
        crate::normalize::fields_get(fields_insert(fs, k, v), k) == Option::Some(v),
    decreases fs,
{
    match fs {
        Fields::Nil => {},
        Fields::Cons(k2, v2, rest) => {
            lemma_chars_order_total(k, k2);
            if chars_lt(k, k2) {
            } else if k == k2 {
            } else {
                lemma_fields_insert_sorted(*rest, k, v);
                match *rest {
                    Fields::Nil => {},
                    Fields::Cons(k3, _, _) => {
                        lemma_chars_order_total(k, k3);
                    },
                }
            }
        },
    }
}

/// Record/union key ordering for unions: inserting an alternative into a
/// sorted alternative list keeps the labels sorted.
pub proof fn lemma_alts_insert_sorted(alts: Alts, k: Chars, v: Option<Box<Expr>>)
    requires
        alts_sorted(alts),
    ensures
        alts_sorted(alts_insert(alts, k, v)),
        alts_has(alts_insert(alts, k, v), k),
    decreases alts,
{
    match alts {
        Alts::Nil => {},
        Alts::Cons(k2, v2, rest) => {
            lemma_chars_order_total(k, k2);
            if chars_lt(k, k2) {
            } else if k == k2 {
            } else {
                lemma_alts_insert_sorted(*rest, k, v);
                match *rest {
                    Alts::Nil => {},
                    Alts::Cons(k3, _, _) => {
                        lemma_chars_order_total(k, k3);
                    },
                }
            }
        },
    }
}

/// Builds a record literal node from fields given in any order; the node's
/// fields come out sorted by label.
pub fn record_lit_of(fs: Fields) -> (res: Expr)
    ensures
        res matches Expr::RecordLit(out) && out == sort_fields(fs),
{
    Expr::RecordLit(sort_fields_exec(fs))
}

/// Builds a record type node from fields given in any order.
pub fn record_type_of(fs: Fields) -> (res: Expr)
    ensures
        res matches Expr::Record(out) && out == sort_fields(fs),
{
    Expr::Record(sort_fields_exec(fs))
}

/// Builds a union type node from alternatives given in any order.
pub fn union_type_of(alts: Alts) -> (res: Expr)
    ensures
        res matches Expr::Union(out) && out == sort_alts(alts),
{
    Expr::Union(sort_alts_exec(alts))
}

/// The fields re-inserted one by one, front first: the canonical sorted
/// form of an arbitrarily ordered field list.
pub open spec fn sort_fields(fs: Fields) -> Fields
    decreases fs,
{
    match fs {
        Fields::Nil => Fields::Nil,
        Fields::Cons(k, v, rest) => fields_insert(sort_fields(*rest), k, *v),
    }
}

/// The alternatives re-inserted one by one, front first.
pub open spec fn sort_alts(alts: Alts) -> Alts
    decreases alts,
{
    match alts {
        Alts::Nil => Alts::Nil,
        Alts::Cons(k, v, rest) => alts_insert(sort_alts(*rest), k, v),
    }
}

fn sort_fields_exec(fs: Fields) -> (res: Fields)
    ensures
        res == sort_fields(fs),
        fields_sorted(res),
    decreases fs,
{
    match fs {
        Fields::Nil => Fields::Nil,
        Fields::Cons(k, v, rest) => {
            let sorted = sort_fields_exec(*rest);
            proof {
                lemma_fields_insert_sorted(sorted, k, *v);
            }
            fields_insert_exec(sorted, k, *v)
        },
    }
}

fn sort_alts_exec(alts: Alts) -> (res: Alts)
    ensures
        res == sort_alts(alts),
        alts_sorted(res),
    decreases alts,
{
    match alts {
        Alts::Nil => Alts::Nil,
        Alts::Cons(k, v, rest) => {
            let sorted = sort_alts_exec(*rest);
            proof {
                lemma_alts_insert_sorted(sorted, k, v);
            }
            alts_insert_exec(sorted, k, v)
        },
    }
}

/// Sorting canonicalizes: the result is always sorted by label.
pub proof fn lemma_sort_fields_sorted(fs: Fields)
    ensures
        fields_sorted(sort_fields(fs)),
    decreases fs,
{
    match fs {
        Fields::Nil => {},
        Fields::Cons(k, v, rest) => {
            lemma_sort_fields_sorted(*rest);
            lemma_fields_insert_sorted(sort_fields(*rest), k, *v);
        },
    }
}

} // verus!
