//! Parse errors and their rendering as diagnostics.

use vstd::prelude::*;
use vstd::string::StringSliceAdditionalSpecFns;
use vstd::utf8::{decode_utf8, is_char_boundary};
use crate::ast::{Context, SourceLoc};

verus! {

/// The kinds of failure a lexer or parser can report.
#[derive(Clone, Copy, Debug, PartialEq, Eq, Structural)]
pub enum Error {
    /// A string literal was opened but not closed before the end of the
    /// line or of the input.
    UnterminatedString,
}

impl Error {
    /// What a diagnostic says of this kind of failure.
    pub open spec fn message(self) -> Seq<char> {
        match self {
            Error::UnterminatedString => "Unterminated string literal"@,
        }
    }

    /// The message of a diagnostic for this kind of failure.
    pub fn message_text(&self) -> (r: &'static str)
        ensures
            r@ == self.message(),
    {
        match self {
            Error::UnterminatedString => "Unterminated string literal",
        }
    }
}

/// A failure, the source it occurred in, and where.
#[derive(Clone, Copy, PartialEq, Eq)]
pub struct ParseError<'a>(pub Error, pub Context<'a>, pub SourceLoc);

/// The decimal digit for `d`.
pub open spec fn digit_char(d: nat) -> char {
    if d == 0 {
        '0'
    } else if d == 1 {
        '1'
    } else if d == 2 {
        '2'
    } else if d == 3 {
        '3'
    } else if d == 4 {
        '4'
    } else if d == 5 {
        '5'
    } else if d == 6 {
        '6'
    } else if d == 7 {
        '7'
    } else if d == 8 {
        '8'
    } else {
        '9'
    }
}

/// The decimal numeral of `n`, without leading zeros.
pub open spec fn decimal(n: nat) -> Seq<char>
    decreases n,
{
    if n < 10 {
        seq![digit_char(n)]
    } else {
        decimal(n / 10).push(digit_char(n % 10))
    }
}

/// The index of the first line feed in `s` at or after `i`, or the length
/// of `s` when there is none.
pub open spec fn line_end_from(s: Seq<char>, i: nat) -> nat
    decreases s.len() - i,
{
    if i >= s.len() {
        s.len()
    } else if s[i as int] == '\n' {
        i
    } else {
        line_end_from(s, i + 1)
    }
}

/// The first line of `s`, without its terminator (`"\n"` or `"\r\n"`).
/// Where `s` holds no line feed, that is the whole of `s`.
pub open spec fn line_of(s: Seq<char>) -> Seq<char> {
    let e = line_end_from(s, 0) as int;
    if 0 < e < s.len() && s[e - 1] == '\r' {
        s.take(e - 1)
    } else {
        s.take(e)
    }
}

/// The text of `source` from byte offset `offset` on.
pub open spec fn text_from(source: &str, offset: int) -> Seq<char> {
    decode_utf8(source.spec_bytes().subrange(offset, source.spec_bytes().len() as int))
}

/// Where no line feed follows position `i`, the line runs to the end.
proof fn lemma_no_line_feed_from(s: Seq<char>, i: nat)
    requires
        forall|j: int| i <= j < s.len() ==> s[j] != '\n',
    ensures
        line_end_from(s, i) == s.len(),
    decreases s.len() - i,
{
    if i < s.len() {
        lemma_no_line_feed_from(s, i + 1);
    }
}

/// The offending line of an error on the last line of a buffer that has no
/// final terminator is the whole rest of the buffer.
pub proof fn lemma_last_line_rendered_whole(e: ParseError)
    requires
        e.well_formed(),
        !text_from(e.1.1, e.2.2 as int).contains('\n'),
    ensures
        e.offending_line() == text_from(e.1.1, e.2.2 as int),
        e.rendering() == "Error on "@ + e.1.0@ + ":"@ + decimal(e.2.0 as nat) + ":"@ + decimal(
            e.2.1 as nat,
        ) + "> "@ + e.0.message() + "\n  "@ + text_from(e.1.1, e.2.2 as int),
{
    let s = text_from(e.1.1, e.2.2 as int);
    lemma_no_line_feed_from(s, 0);
    assert(s.take(s.len() as int) =~= s);
}

impl<'a> ParseError<'a> {
    /// The offset of the error's line falls on a character boundary of the
    /// source buffer. Producers of errors guarantee it.
    pub open spec fn well_formed(self) -> bool {
        is_char_boundary(self.1.1.spec_bytes(), self.2.2 as int)
    }

    /// The offending line: the source from the line's start offset up to
    /// its terminator.
    pub open spec fn offending_line(self) -> Seq<char> {
        line_of(text_from(self.1.1, self.2.2 as int))
    }

    /// `Error on {context}:{line}:{column}> {message}`, a line feed, two
    /// spaces, and the offending line.
    pub open spec fn rendering(self) -> Seq<char> {
        "Error on "@ + self.1.0@ + ":"@ + decimal(self.2.0 as nat) + ":"@ + decimal(
            self.2.1 as nat,
        ) + "> "@ + self.0.message() + "\n  "@ + self.offending_line()
    }

    /// The diagnostic for this error.
    pub fn render(&self) -> (r: String)
        requires
            self.well_formed(),
        ensures
            r@ == self.rendering(),
    {
        let name = self.1.0;
        let source = self.1.1;
        let mut out = String::new();
        out.append("Error on ");
        out.append(name);
        out.append(":");
        push_decimal(&mut out, self.2.0);
        out.append(":");
        push_decimal(&mut out, self.2.1);
        out.append("> ");
        out.append(self.0.message_text());
        out.append("\n  ");
        let (_, rest) = source.split_at(self.2.2);
        proof {
            broadcast use vstd::utf8::encode_utf8_decode_utf8;

            assert(rest@ == text_from(source, self.2.2 as int));
        }
        out.append(first_line(rest));
        out
    }
}

/// The one-character string of the digit `d`.
fn digit_text(d: usize) -> (r: &'static str)
    requires
        d < 10,
    ensures
        r@ == seq![digit_char(d as nat)],
{
    proof {
        reveal_strlit("0");
        reveal_strlit("1");
        reveal_strlit("2");
        reveal_strlit("3");
        reveal_strlit("4");
        reveal_strlit("5");
        reveal_strlit("6");
        reveal_strlit("7");
        reveal_strlit("8");
        reveal_strlit("9");
    }
    let r = if d == 0 {
        "0"
    } else if d == 1 {
        "1"
    } else if d == 2 {
        "2"
    } else if d == 3 {
        "3"
    } else if d == 4 {
        "4"
    } else if d == 5 {
        "5"
    } else if d == 6 {
        "6"
    } else if d == 7 {
        "7"
    } else if d == 8 {
        "8"
    } else {
        "9"
    };
    assert(r@ =~= seq![digit_char(d as nat)]);
    r
}

/// Appends the decimal numeral of `n` to `out`.
pub fn push_decimal(out: &mut String, n: usize)
    ensures
        final(out)@ == old(out)@ + decimal(n as nat),
    decreases n,
{
    if n >= 10 {
        push_decimal(out, n / 10);
    }
    out.append(digit_text(n % 10));
    assert(final(out)@ =~= old(out)@ + decimal(n as nat));
}

/// The first line of `s`, without its terminator.
pub fn first_line(s: &str) -> (r: &str)
    ensures
        r@ == line_of(s@),
{
    let n = s.unicode_len();
    let mut i: usize = 0;
    while i < n && s.get_char(i) != '\n'
        invariant
            n == s@.len(),
            i <= n,
            line_end_from(s@, i as nat) == line_end_from(s@, 0),
        decreases n - i,
    {
        i += 1;
    }
    assert(line_end_from(s@, i as nat) == i);
    if 0 < i && i < n && s.get_char(i - 1) == '\r' {
        s.substring_char(0, i - 1)
    } else {
        s.substring_char(0, i)
    }
}

} // verus!
