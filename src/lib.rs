//! Syntax representation shared by the phases of the clow compiler front end:
//! tokens, expression trees, types, source locations, and the rendering of
//! keywords, operators and parse diagnostics.

mod text;
pub mod symbols;
pub mod types;
pub mod ast;
pub mod diagnostic;

pub use ast::{Context, Expr, ExprType, SourceLoc, Token, TokenType};
pub use diagnostic::{Error, ParseError};
pub use symbols::{Keyword, Operator};
pub use types::Type;
