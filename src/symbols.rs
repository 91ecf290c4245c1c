//! Keywords and operators, with their canonical spellings.

use vstd::prelude::*;

verus! {

/// Reserved words of the language.
#[derive(Clone, Copy, Debug, PartialEq, Eq, Structural)]
pub enum Keyword {
    Fun,
    Pub,
    Impl,
    Enum,
    Const,
    Class,
    Do,
    For,
    If,
    Elif,
    Else,
    Match,
    While,
}

impl Keyword {
    /// The canonical surface spelling of the keyword.
    pub open spec fn spelling(self) -> Seq<char> {
        match self {
            Keyword::Fun => seq!['f', 'n'],
            Keyword::Pub => seq!['p', 'u', 'b'],
            Keyword::Impl => seq!['i', 'm', 'p', 'l'],
            Keyword::Enum => seq!['e', 'n', 'u', 'm'],
            Keyword::Const => seq!['c', 'o', 'n', 's', 't'],
            Keyword::Class => seq!['c', 'l', 'a', 's', 's'],
            Keyword::Do => seq!['d', 'o'],
            Keyword::For => seq!['f', 'o', 'r'],
            Keyword::If => seq!['i', 'f'],
            Keyword::Elif => seq!['e', 'l', 'i', 'f'],
            Keyword::Else => seq!['e', 'l', 's', 'e'],
            Keyword::Match => seq!['m', 'a', 't', 'c', 'h'],
            Keyword::While => seq!['w', 'h', 'i', 'l', 'e'],
        }
    }

    /// The canonical spelling, as used in diagnostics and when writing a
    /// tree back out as source text.
    pub fn as_str(&self) -> (r: &'static str)
        ensures
            r@ == self.spelling(),
    {
        match self {
            Keyword::Fun => {
                proof { reveal_strlit("fn"); }
                "fn"
            },
            Keyword::Pub => {
                proof { reveal_strlit("pub"); }
                "pub"
            },
            Keyword::Impl => {
                proof { reveal_strlit("impl"); }
                "impl"
            },
            Keyword::Enum => {
                proof { reveal_strlit("enum"); }
                "enum"
            },
            Keyword::Const => {
                proof { reveal_strlit("const"); }
                "const"
            },
            Keyword::Class => {
                proof { reveal_strlit("class"); }
                "class"
            },
            Keyword::Do => {
                proof { reveal_strlit("do"); }
                "do"
            },
            Keyword::For => {
                proof { reveal_strlit("for"); }
                "for"
            },
            Keyword::If => {
                proof { reveal_strlit("if"); }
                "if"
            },
            Keyword::Elif => {
                proof { reveal_strlit("elif"); }
                "elif"
            },
            Keyword::Else => {
                proof { reveal_strlit("else"); }
                "else"
            },
            Keyword::Match => {
                proof { reveal_strlit("match"); }
                "match"
            },
            Keyword::While => {
                proof { reveal_strlit("while"); }
                "while"
            },
        }
    }
}

/// Distinct keywords are spelled differently, so a lexer that recognises
/// exactly these spellings reads each rendered keyword back as itself.
pub proof fn lemma_keyword_spelling_injective(a: Keyword, b: Keyword)
    ensures
        a.spelling() == b.spelling() ==> a == b,
{
    if a.spelling() == b.spelling() {
        let (s, t) = (a.spelling(), b.spelling());
        assert(s.len() == t.len());
        assert(s[0] == t[0]);
        assert(s[1] == t[1]);
        if s.len() > 2 {
            assert(s[2] == t[2]);
        }
    }
}

/// Arithmetic, comparison, logical, bitwise and assignment operators.
#[derive(Clone, Copy, Debug, PartialEq, Eq, Structural)]
pub enum Operator {
    Add,
    Sub,
    Mul,
    Div,
    Mod,
    Assign,
    Equ,
    Neq,
    Lt,
    Lte,
    Gt,
    Gte,
    And,
    Or,
    Not,
    Xor,
    Shl,
    Shr,
    BitOr,
    BitAnd,
    BitNot,
}

impl Operator {
    /// The canonical symbol of the operator.
    pub open spec fn spelling(self) -> Seq<char> {
        match self {
            Operator::Add => seq!['+'],
            Operator::Sub => seq!['-'],
            Operator::Mul => seq!['*'],
            Operator::Div => seq!['/'],
            Operator::Mod => seq!['%'],
            Operator::Assign => seq!['='],
            Operator::Equ => seq!['=', '='],
            Operator::Neq => seq!['!', '='],
            Operator::Lt => seq!['<'],
            Operator::Lte => seq!['<', '='],
            Operator::Gt => seq!['>'],
            Operator::Gte => seq!['>', '='],
            Operator::And => seq!['&', '&'],
            Operator::Or => seq!['|', '|'],
            Operator::Not => seq!['!'],
            Operator::Xor => seq!['^'],
            Operator::Shl => seq!['<', '<'],
            Operator::Shr => seq!['>', '>'],
            Operator::BitOr => seq!['|'],
            Operator::BitAnd => seq!['&'],
            Operator::BitNot => seq!['~'],
        }
    }

    /// The canonical symbol, as used in diagnostics and when writing a
    /// tree back out as source text.
    pub fn as_str(&self) -> (r: &'static str)
        ensures
            r@ == self.spelling(),
    {
        match self {
            Operator::Add => {
                proof { reveal_strlit("+"); }
                "+"
            },
            Operator::Sub => {
                proof { reveal_strlit("-"); }
                "-"
            },
            Operator::Mul => {
                proof { reveal_strlit("*"); }
                "*"
            },
            Operator::Div => {
                proof { reveal_strlit("/"); }
                "/"
            },
            Operator::Mod => {
                proof { reveal_strlit("%"); }
                "%"
            },
            Operator::Assign => {
                proof { reveal_strlit("="); }
                "="
            },
            Operator::Equ => {
                proof { reveal_strlit("=="); }
                "=="
            },
            Operator::Neq => {
                proof { reveal_strlit("!="); }
                "!="
            },
            Operator::Lt => {
                proof { reveal_strlit("<"); }
                "<"
            },
            Operator::Lte => {
                proof { reveal_strlit("<="); }
                "<="
            },
            Operator::Gt => {
                proof { reveal_strlit(">"); }
                ">"
            },
            Operator::Gte => {
                proof { reveal_strlit(">="); }
                ">="
            },
            Operator::And => {
                proof { reveal_strlit("&&"); }
                "&&"
            },
            Operator::Or => {
                proof { reveal_strlit("||"); }
                "||"
            },
            Operator::Not => {
                proof { reveal_strlit("!"); }
                "!"
            },
            Operator::Xor => {
                proof { reveal_strlit("^"); }
                "^"
            },
            Operator::Shl => {
                proof { reveal_strlit("<<"); }
                "<<"
            },
            Operator::Shr => {
                proof { reveal_strlit(">>"); }
                ">>"
            },
            Operator::BitOr => {
                proof { reveal_strlit("|"); }
                "|"
            },
            Operator::BitAnd => {
                proof { reveal_strlit("&"); }
                "&"
            },
            Operator::BitNot => {
                proof { reveal_strlit("~"); }
                "~"
            },
        }
    }
}

/// No two operators share a symbol.
pub proof fn lemma_operator_spelling_injective(a: Operator, b: Operator)
    ensures
        a.spelling() == b.spelling() ==> a == b,
{
    if a.spelling() == b.spelling() {
        let (s, t) = (a.spelling(), b.spelling());
        assert(s.len() == t.len());
        assert(s[0] == t[0]);
        if s.len() > 1 {
            assert(s[1] == t[1]);
        }
    }
}

} // verus!
