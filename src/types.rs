//! The type-expression sublanguage.

use vstd::prelude::*;
use crate::text::same_text;

verus! {

/// A type as written in source: one of the five scalar kinds, a nominal
/// user-defined type, or a named template applied to type arguments.
/// Names borrow from the source buffer.
#[derive(Debug, PartialEq)]
pub enum Type<'a> {
    /// `byte`, an unsigned 8-bit integer.
    Byte,
    /// `int`, a signed 32-bit integer.
    Int,
    /// `long`, a signed 64-bit integer.
    Long,
    /// `float`, a 32-bit floating-point number.
    Float,
    /// `double`, a 64-bit floating-point number.
    Double,
    /// A user-defined type referenced by name.
    Class(&'a str),
    /// A named template applied to type arguments.
    Generic(&'a str, Vec<Type<'a>>),
}

/// The type an identifier denotes: the five reserved lowercase spellings
/// name the scalar kinds, and any other identifier names a class.
pub open spec fn type_named<'a>(name: &'a str) -> Type<'a> {
    if name@ == seq!['b', 'y', 't', 'e'] {
        Type::Byte
    } else if name@ == seq!['i', 'n', 't'] {
        Type::Int
    } else if name@ == seq!['l', 'o', 'n', 'g'] {
        Type::Long
    } else if name@ == seq!['f', 'l', 'o', 'a', 't'] {
        Type::Float
    } else if name@ == seq!['d', 'o', 'u', 'b', 'l', 'e'] {
        Type::Double
    } else {
        Type::Class(name)
    }
}

impl<'a> From<&'a str> for Type<'a> {
    /// Reads an identifier as a type. Matching is exact and case-sensitive;
    /// whether a class of that name exists is left to name resolution.
    fn from(ident: &'a str) -> (r: Type<'a>)
        ensures
            r == type_named(ident),
    {
        proof {
            reveal_strlit("byte");
            reveal_strlit("int");
            reveal_strlit("long");
            reveal_strlit("float");
            reveal_strlit("double");
            assert("byte"@ =~= seq!['b', 'y', 't', 'e']);
            assert("int"@ =~= seq!['i', 'n', 't']);
            assert("long"@ =~= seq!['l', 'o', 'n', 'g']);
            assert("float"@ =~= seq!['f', 'l', 'o', 'a', 't']);
            assert("double"@ =~= seq!['d', 'o', 'u', 'b', 'l', 'e']);
        }
        if same_text(ident, "byte") {
            Type::Byte
        } else if same_text(ident, "int") {
            Type::Int
        } else if same_text(ident, "long") {
            Type::Long
        } else if same_text(ident, "float") {
            Type::Float
        } else if same_text(ident, "double") {
            Type::Double
        } else {
            Type::Class(ident)
        }
    }
}

impl<'a> vstd::std_specs::convert::FromSpecImpl<&'a str> for Type<'a> {
    open spec fn obeys_from_spec() -> bool {
        true
    }

    open spec fn from_spec(v: &'a str) -> Type<'a> {
        type_named(v)
    }
}

} // verus!
