//! The small pieces of concrete-syntax support that belong to the core:
//! the built-in identifier names, and the source span attached to parsed
//! nodes.  The grammar and tokenizer themselves are an external
//! collaborator.

use vstd::prelude::*;
use vstd::string::StringExecFns;

use crate::expr::Builtin;

verus! {

/// A region of the source text, for diagnostics.
#[derive(Debug, Clone, PartialEq, Eq)]
pub struct Span {
    /// The whole input the span points into.
    pub input: String,
    /// The byte offset the span starts at.
    pub start: usize,
    /// The byte offset one past the span's end.
    pub end: usize,
}

/// The built-in identifier a name denotes, if any.
pub open spec fn builtin_of_name(s: Seq<char>) -> Option<Builtin> {
    if s == "Bool"@ {
        Option::Some(Builtin::Bool)
    } else if s == "Natural"@ {
        Option::Some(Builtin::Natural)
    } else if s == "Integer"@ {
        Option::Some(Builtin::Integer)
    } else if s == "Double"@ {
        Option::Some(Builtin::Double)
    } else if s == "Text"@ {
        Option::Some(Builtin::Text)
    } else if s == "List"@ {
        Option::Some(Builtin::List)
    } else if s == "Optional"@ {
        Option::Some(Builtin::Optional)
    } else if s == "None"@ {
        Option::Some(Builtin::OptionalNone)
    } else if s == "Natural/build"@ {
        Option::Some(Builtin::NaturalBuild)
    } else if s == "Natural/fold"@ {
        Option::Some(Builtin::NaturalFold)
    } else if s == "Natural/isZero"@ {
        Option::Some(Builtin::NaturalIsZero)
    } else if s == "Natural/even"@ {
        Option::Some(Builtin::NaturalEven)
    } else if s == "Natural/odd"@ {
        Option::Some(Builtin::NaturalOdd)
    } else if s == "Natural/toInteger"@ {
        Option::Some(Builtin::NaturalToInteger)
    } else if s == "Natural/show"@ {
        Option::Some(Builtin::NaturalShow)
    } else if s == "Integer/toDouble"@ {
        Option::Some(Builtin::IntegerToDouble)
    } else if s == "Integer/show"@ {
        Option::Some(Builtin::IntegerShow)
    } else if s == "Double/show"@ {
        Option::Some(Builtin::DoubleShow)
    } else if s == "List/build"@ {
        Option::Some(Builtin::ListBuild)
    } else if s == "List/fold"@ {
        Option::Some(Builtin::ListFold)
    } else if s == "List/length"@ {
        Option::Some(Builtin::ListLength)
    } else if s == "List/head"@ {
        Option::Some(Builtin::ListHead)
    } else if s == "List/last"@ {
        Option::Some(Builtin::ListLast)
    } else if s == "List/indexed"@ {
        Option::Some(Builtin::ListIndexed)
    } else if s == "List/reverse"@ {
        Option::Some(Builtin::ListReverse)
    } else if s == "Optional/fold"@ {
        Option::Some(Builtin::OptionalFold)
    } else if s == "Optional/build"@ {
        Option::Some(Builtin::OptionalBuild)
    } else if s == "Text/show"@ {
        Option::Some(Builtin::TextShow)
    } else {
        Option::None
    }
}

fn str_is(s: &str, lit: &str) -> (res: bool)
    ensures
        res == (s@ == lit@),
{
    let a = String::from_str(s);
    let b = String::from_str(lit);
    a == b
}

impl Builtin {
    /// Parses the name of a built-in identifier.
    pub fn parse(s: &str) -> (res: Option<Builtin>)
        ensures
            res == builtin_of_name(s@),
    {
        if str_is(s, "Bool") {
            Option::Some(Builtin::Bool)
        } else if str_is(s, "Natural") {
            Option::Some(Builtin::Natural)
        } else if str_is(s, "Integer") {
            Option::Some(Builtin::Integer)
        } else if str_is(s, "Double") {
            Option::Some(Builtin::Double)
        } else if str_is(s, "Text") {
            Option::Some(Builtin::Text)
        } else if str_is(s, "List") {
            Option::Some(Builtin::List)
        } else if str_is(s, "Optional") {
            Option::Some(Builtin::Optional)
        } else if str_is(s, "None") {
            Option::Some(Builtin::OptionalNone)
        } else if str_is(s, "Natural/build") {
            Option::Some(Builtin::NaturalBuild)
        } else if str_is(s, "Natural/fold") {
            Option::Some(Builtin::NaturalFold)
        } else if str_is(s, "Natural/isZero") {
            Option::Some(Builtin::NaturalIsZero)
        } else if str_is(s, "Natural/even") {
            Option::Some(Builtin::NaturalEven)
        } else if str_is(s, "Natural/odd") {
            Option::Some(Builtin::NaturalOdd)
        } else if str_is(s, "Natural/toInteger") {
            Option::Some(Builtin::NaturalToInteger)
        } else if str_is(s, "Natural/show") {
            Option::Some(Builtin::NaturalShow)
        } else if str_is(s, "Integer/toDouble") {
            Option::Some(Builtin::IntegerToDouble)
        } else if str_is(s, "Integer/show") {
            Option::Some(Builtin::IntegerShow)
        } else if str_is(s, "Double/show") {
            Option::Some(Builtin::DoubleShow)
        } else if str_is(s, "List/build") {
            Option::Some(Builtin::ListBuild)
        } else if str_is(s, "List/fold") {
            Option::Some(Builtin::ListFold)
        } else if str_is(s, "List/length") {
            Option::Some(Builtin::ListLength)
        } else if str_is(s, "List/head") {
            Option::Some(Builtin::ListHead)
        } else if str_is(s, "List/last") {
            Option::Some(Builtin::ListLast)
        } else if str_is(s, "List/indexed") {
            Option::Some(Builtin::ListIndexed)
        } else if str_is(s, "List/reverse") {
            Option::Some(Builtin::ListReverse)
        } else if str_is(s, "Optional/fold") {
            Option::Some(Builtin::OptionalFold)
        } else if str_is(s, "Optional/build") {
            Option::Some(Builtin::OptionalBuild)
        } else if str_is(s, "Text/show") {
            Option::Some(Builtin::TextShow)
        } else {
            Option::None
        }
    }
}

} // verus!
