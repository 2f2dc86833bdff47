//! A sorted map that allows multiple values for each key.
//!
//! The parser collects record and union fields into this shape before the
//! duplicate keys are rejected or merged: iteration is in sorted key
//! order, and the values of one key keep their insertion order.

use vstd::prelude::*;

use crate::expr::{chars_less, chars_lt, Chars};

verus! {

/// One or more values, in insertion order.
#[derive(Debug, Clone, PartialEq, Eq)]
pub enum OneOrMore<T> {
    One(T),
    More(Vec<T>),
}

/// The values a [`OneOrMore`] holds, in order.
pub open spec fn one_or_more_seq<T>(o: OneOrMore<T>) -> Seq<T> {
    match o {
        OneOrMore::One(x) => seq![x],
        OneOrMore::More(v) => v@,
    }
}

impl<T> OneOrMore<T> {
    /// A single value.
    pub fn new(x: T) -> (res: Self)
        ensures
            one_or_more_seq(res) == seq![x],
    {
        OneOrMore::One(x)
    }

    /// The number of values held.
    pub fn len(&self) -> (res: usize)
        ensures
            res == one_or_more_seq(*self).len(),
    {
        match self {
            OneOrMore::One(_) => 1,
            OneOrMore::More(v) => v.len(),
        }
    }

    /// Borrows the `i`-th value, in insertion order: the walk the
    /// original exposed as an iterator.
    pub fn get(&self, i: usize) -> (res: &T)
        requires
            i < one_or_more_seq(*self).len(),
        ensures
            *res == one_or_more_seq(*self)[i as int],
    {
        match self {
            OneOrMore::One(x) => x,
            OneOrMore::More(v) => &v[i],
        }
    }

    /// Appends one value after the values already held.
    pub fn push(&mut self, x: T)
        ensures
            one_or_more_seq(*final(self)) == one_or_more_seq(*old(self)).push(x),
    {
        let mut tmp = OneOrMore::More(Vec::new());
        core::mem::swap(self, &mut tmp);
        match tmp {
            OneOrMore::One(one) => {
                let mut v = Vec::new();
                v.push(one);
                v.push(x);
                proof {
                    assert(v@ =~= one_or_more_seq(*old(self)).push(x));
                }
                *self = OneOrMore::More(v);
            },
            OneOrMore::More(mut v) => {
                v.push(x);
                *self = OneOrMore::More(v);
            },
        }
    }
}

/// The entries of a [`DupTreeMap`], most significant key order outermost:
/// a structural association list.
#[derive(Debug, PartialEq, Eq)]
pub enum DupEntries<V> {
    Nil,
    Cons(Chars, V, Box<DupEntries<V>>),
}

/// The number of entries.
pub open spec fn dup_len<V>(es: DupEntries<V>) -> nat
    decreases es,
{
    match es {
        DupEntries::Nil => 0nat,
        DupEntries::Cons(_, _, rest) => 1 + dup_len(*rest),
    }
}

/// The keys appear in non-decreasing order, so equal keys are adjacent and
/// iteration is in sorted key order.
pub open spec fn dup_sorted<V>(es: DupEntries<V>) -> bool
    decreases es,
{
    match es {
        DupEntries::Nil => true,
        DupEntries::Cons(k, _, rest) => match *rest {
            DupEntries::Nil => true,
            DupEntries::Cons(k2, _, _) => !chars_lt(k2, k) && dup_sorted(*rest),
        },
    }
}

/// Inserts an entry behind every existing entry whose key is not greater,
/// so equal keys keep their insertion order.
pub open spec fn dup_insert<V>(es: DupEntries<V>, k: Chars, v: V) -> DupEntries<V>
    decreases es,
{
    match es {
        DupEntries::Nil => DupEntries::Cons(k, v, Box::new(DupEntries::Nil)),
        DupEntries::Cons(k2, v2, rest) => if chars_lt(k, k2) {
            DupEntries::Cons(k, v, Box::new(DupEntries::Cons(k2, v2, rest)))
        } else {
            DupEntries::Cons(k2, v2, Box::new(dup_insert(*rest, k, v)))
        },
    }
}

/// The lexicographic order on labels is asymmetric.
proof fn lemma_chars_lt_asym(a: Chars, b: Chars)
    requires
        chars_lt(a, b),
    ensures
        !chars_lt(b, a),
    decreases a,
{
    match (a, b) {
        (Chars::Cons(c1, t1), Chars::Cons(c2, t2)) => {
            if c1 == c2 {
                lemma_chars_lt_asym(*t1, *t2);
            }
        },
        _ => {},
    }
}

/// Inserting keeps the entries sorted and grows the map by one.
pub proof fn lemma_dup_insert_sorted<V>(es: DupEntries<V>, k: Chars, v: V)
    requires
        dup_sorted(es),
    ensures
        dup_sorted(dup_insert(es, k, v)),
        dup_len(dup_insert(es, k, v)) == dup_len(es) + 1,
    decreases es,
{
    match es {
        DupEntries::Nil => {},
        DupEntries::Cons(k2, _, rest) => {
            crate::builder::lemma_chars_order_total(k, k2);
            if chars_lt(k, k2) {
                lemma_chars_lt_asym(k, k2);
            } else {
                lemma_dup_insert_sorted(*rest, k, v);
                match *rest {
                    DupEntries::Nil => {
                        assert(dup_insert(*rest, k, v) == DupEntries::Cons(
                            k,
                            v,
                            Box::new(DupEntries::<V>::Nil),
                        ));
                    },
                    DupEntries::Cons(k3, v3, r3) => {
                        crate::builder::lemma_chars_order_total(k, k3);
                        if chars_lt(k, k3) {
                            lemma_chars_lt_asym(k, k3);
                            assert(dup_insert(*rest, k, v) == DupEntries::Cons(
                                k,
                                v,
                                Box::new(DupEntries::Cons(k3, v3, r3)),
                            ));
                        } else {
                            assert(dup_insert(*rest, k, v) == DupEntries::Cons(
                                k3,
                                v3,
                                Box::new(dup_insert(*r3, k, v)),
                            ));
                        }
                    },
                }
            }
        },
    }
}

/// The key of the `i`-th entry, in iteration order.
pub open spec fn dup_key_at<V>(es: DupEntries<V>, i: nat) -> Chars
    decreases es,
{
    match es {
        DupEntries::Nil => Chars::Nil,
        DupEntries::Cons(k, _, rest) => if i == 0 {
            k
        } else {
            dup_key_at(*rest, (i - 1) as nat)
        },
    }
}

/// The value of the `i`-th entry, in iteration order.
pub open spec fn dup_val_at<V>(es: DupEntries<V>, i: nat) -> V
    decreases es,
{
    match es {
        DupEntries::Nil => vstd::pervasive::arbitrary(),
        DupEntries::Cons(_, v, rest) => if i == 0 {
            v
        } else {
            dup_val_at(*rest, (i - 1) as nat)
        },
    }
}

/// A sorted multimap from labels to values: iteration is in sorted key
/// order, and the entries of one key keep their insertion order.
#[derive(Debug, PartialEq, Eq)]
pub struct DupTreeMap<V> {
    pub entries: DupEntries<V>,
}

impl<V> DupTreeMap<V> {
    /// The empty map.
    pub fn new() -> (res: Self)
        ensures
            res.entries == DupEntries::<V>::Nil,
    {
        DupTreeMap { entries: DupEntries::Nil }
    }

    /// Inserts one key/value pair at its sorted position, after any entry
    /// with an equal key; the keys stay sorted.
    pub fn insert(&mut self, key: Chars, value: V)
        requires
            dup_sorted(old(self).entries),
        ensures
            final(self).entries == dup_insert(old(self).entries, key, value),
            dup_sorted(final(self).entries),
            dup_len(final(self).entries) == dup_len(old(self).entries) + 1,
    {
        proof {
            lemma_dup_insert_sorted(old(self).entries, key, value);
        }
        let mut tmp = DupEntries::Nil;
        core::mem::swap(&mut self.entries, &mut tmp);
        self.entries = dup_insert_exec(tmp, key, value);
    }

    /// The number of entries, saturating at the machine word.
    pub fn len(&self) -> (res: usize)
        ensures
            res == if dup_len(self.entries) > usize::MAX {
                usize::MAX
            } else {
                dup_len(self.entries) as usize
            },
    {
        dup_len_exec(&self.entries)
    }

    /// Whether the map holds no entry.
    pub fn is_empty(&self) -> (res: bool)
        ensures
            res == (dup_len(self.entries) == 0),
    {
        match &self.entries {
            DupEntries::Nil => true,
            DupEntries::Cons(_, _, _) => false,
        }
    }

    /// Borrows the `i`-th entry, in sorted key order: the walk the
    /// original exposed as an iterator.
    pub fn entry_at(&self, i: usize) -> (res: (&Chars, &V))
        requires
            (i as nat) < dup_len(self.entries),
        ensures
            *res.0 == dup_key_at(self.entries, i as nat),
            *res.1 == dup_val_at(self.entries, i as nat),
    {
        dup_entry_at(&self.entries, i)
    }
}

fn dup_entry_at<V>(es: &DupEntries<V>, i: usize) -> (res: (&Chars, &V))
    requires
        (i as nat) < dup_len(*es),
    ensures
        *res.0 == dup_key_at(*es, i as nat),
        *res.1 == dup_val_at(*es, i as nat),
    decreases *es,
{
    match es {
        DupEntries::Nil => unreached(),
        DupEntries::Cons(k, v, rest) => if i == 0 {
            (k, v)
        } else {
            dup_entry_at(rest, i - 1)
        },
    }
}

fn dup_insert_exec<V>(es: DupEntries<V>, k: Chars, v: V) -> (res: DupEntries<V>)
    ensures
        res == dup_insert(es, k, v),
    decreases es,
{
    match es {
        DupEntries::Nil => DupEntries::Cons(k, v, Box::new(DupEntries::Nil)),
        DupEntries::Cons(k2, v2, rest) => if chars_less(&k, &k2) {
            DupEntries::Cons(k, v, Box::new(DupEntries::Cons(k2, v2, rest)))
        } else {
            DupEntries::Cons(k2, v2, Box::new(dup_insert_exec(*rest, k, v)))
        },
    }
}

fn dup_len_exec<V>(es: &DupEntries<V>) -> (res: usize)
    ensures
        res == if dup_len(*es) > usize::MAX {
            usize::MAX
        } else {
            dup_len(*es) as usize
        },
    decreases *es,
{
    match es {
        DupEntries::Nil => 0,
        DupEntries::Cons(_, _, rest) => {
            let m = dup_len_exec(rest);
            if m < usize::MAX {
                m + 1
            } else {
                usize::MAX
            }
        },
    }
}

} // verus!
