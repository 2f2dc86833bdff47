//! Interpreter core for a small total, typed, lambda-calculus-based
//! configuration language.
//!
//! The crate provides the expression tree shared by every phase, the
//! scope-correct shift/substitution primitives on de-Bruijn-indexed
//! variables, a normalizer that reduces expressions to canonical form
//! (including built-in operators and fold/build fusion), and a type checker
//! whose judgmental equality compares normal forms up to alpha-renaming.
//!
//! Parsing, import resolution and the binary codec are external
//! collaborators: they produce and consume the expression tree defined here
//! but are not part of this crate's verified core.

pub mod builder;
pub mod dup_tree_map;
pub mod expr;
pub mod import;
pub mod normalize;
pub mod subst;
pub mod syntax;
pub mod typecheck;
