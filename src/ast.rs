//! Tokens and expression trees, each tagged with where it starts in the
//! source buffer. String payloads borrow from that buffer, so nothing here
//! outlives it.

use vstd::prelude::*;
use crate::symbols::{Keyword, Operator};
use crate::types::Type;

verus! {

/// `(line, column, line_start)`: 1-based line and column, and the byte
/// offset in the source buffer at which that line begins.
pub type SourceLoc = (usize, usize, usize);

/// `(name, source)`: a label for where the source came from, such as a file
/// path, and the whole source buffer.
pub type Context<'a> = (&'a str, &'a str);

/// A syntax node and where it starts.
#[derive(Debug, PartialEq)]
pub struct Expr<'a>(pub ExprType<'a>, pub SourceLoc);

/// A lexical unit and where it starts.
#[derive(Debug, PartialEq)]
pub struct Token<'a>(pub TokenType<'a>, pub SourceLoc);

/// The lexical units of the language.
#[derive(Debug, PartialEq)]
pub enum TokenType<'a> {
    Dot,
    Semi,
    Colon,
    Comma,
    Arrow,
    LParen,
    RParen,
    LBrace,
    RBrace,
    LCurly,
    RCurly,
    Int(u64),
    /// A floating-point literal, held as the bit pattern of its IEEE-754
    /// binary64 value.
    Float(u64),
    Id(&'a str),
    Kw(Keyword),
    Str(&'a str),
    /// An operator, with a flag the lexer sets to tell apart two readings
    /// of the same symbol.
    Op(Operator, bool),
}

/// The content of a syntax node. Children are owned by their parent: a tree
/// has no sharing and no cycles.
#[derive(Debug, PartialEq)]
pub enum ExprType<'a> {
    EInt(u64),
    /// A floating-point literal, held as the bit pattern of its IEEE-754
    /// binary64 value.
    EFloat(u64),
    EId(&'a str),
    EString(&'a str),
    EArray(Vec<Expr<'a>>),
    EUnop(Operator, Box<Expr<'a>>),
    /// A binary operation; its two operands are boxed together as one pair.
    EBinop(Operator, Box<(Expr<'a>, Expr<'a>)>),
    /// Declarations of one or more names of a shared type, each with an
    /// optional initializer of its own.
    EVar(Type<'a>, Vec<(&'a str, Option<Expr<'a>>)>),
    /// A function definition: name, modifier bits, types, and body.
    EFunc(&'a str, i32, Vec<Type<'a>>, Vec<Expr<'a>>),
    /// A class definition: name, modifier bits, types, and members.
    EClass(&'a str, i32, Vec<Type<'a>>, Vec<Expr<'a>>),
    /// An `if`/`elif` chain of conditions with their blocks, and an optional
    /// `else` block.
    EIf(Vec<(Expr<'a>, Vec<Expr<'a>>)>, Option<Vec<Expr<'a>>>),
}

} // verus!
