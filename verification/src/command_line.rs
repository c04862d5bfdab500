//! Splitting a command line into tokens.
//!
//! Tokens are separated by ASCII whitespace. A token that starts with a single quote,
//! a double quote or a backtick runs up to the matching closing quote; inside it a
//! doubled quote character stands for one literal quote character (`'it''s'` reads
//! as `it's`). Any other token runs up to the next whitespace character.
//!
//! A token that starts with `%` is an expansion, written `%<kind><open><content><close>`:
//! the kind is a (possibly empty) run of lowercase ASCII letters (`` for a
//! variable, `u` for a Unicode code point, `sh` for a shell command), and the
//! content is delimited by `(` `)`, `[` `]`, `{` `}`, `<` `>`, or by a pair of `'`,
//! `"` or `|`. Inside bracket delimiters, nested pairs of the same brackets are part
//! of the content (`%sh{echo {}}` holds `echo {}`). An expansion with no delimiter
//! after its kind, or of an unknown kind, or whose closing delimiter is missing, is
//! an error when the tokenizer validates.
//!
//! `Tokenizer::rest` returns everything that is left of the input (after leading
//! whitespace) as a single raw token, with no quoting rules applied.
use vstd::prelude::*;

use crate::text::{chars_of, push_char, string_from_range};

verus! {

/// The quote character that delimits a quoted token.
#[derive(Debug, Clone, Copy, PartialEq, Eq)]
pub enum Quote {
    Single,
    Double,
    Backtick,
}

/// The kinds of `%` expansions.
#[derive(Debug, Clone, Copy, PartialEq, Eq)]
pub enum ExpansionKind {
    /// `%{name}`: an editor variable.
    Variable,
    /// `%u{code}`: a Unicode code point.
    Unicode,
    /// `%sh{command}`: the output of a shell command.
    Shell,
}

/// How a token was written on the command line.
#[derive(Debug, Clone, Copy, PartialEq, Eq)]
pub enum TokenKind {
    /// Text up to the next whitespace.
    Unquoted,
    /// Text between quotes.
    Quoted(Quote),
    /// The raw remainder of the input.
    Expand,
    /// The content of a `%` expansion.
    Expansion(ExpansionKind),
    /// A `%` and an expansion kind with no delimiter after it (as while the kind is
    /// still being typed); the content is the kind.
    ExpansionKind,
}

/// A token read from a command line.
#[derive(Debug, Clone, PartialEq, Eq)]
pub struct Token {
    pub kind: TokenKind,
    /// The index (in characters) in the input at which the token's content starts.
    pub content_start: usize,
    /// The token's text, with quotes removed.
    pub content: String,
    /// Whether a quoted token was closed before the end of the input.
    pub is_terminated: bool,
}

/// The mathematical value of a token.
pub struct TokenView {
    pub kind: TokenKind,
    pub content_start: nat,
    pub content: Seq<char>,
    pub is_terminated: bool,
}

impl View for Token {
    type V = TokenView;

    open spec fn view(&self) -> TokenView {
        TokenView {
            kind: self.kind,
            content_start: self.content_start as nat,
            content: self.content@,
            is_terminated: self.is_terminated,
        }
    }
}

/// A failure to split a command line.
#[derive(Debug, Clone, PartialEq, Eq)]
pub enum TokenizeError {
    /// A quoted token or an expansion reached the end of the input without its
    /// closing delimiter.
    UnterminatedToken { token: Token },
    /// An expansion's kind is not followed by an opening delimiter.
    MissingExpansionDelimiter { expansion: String },
    /// An expansion names no known kind.
    UnknownExpansion { kind: String },
}

/// The mathematical value of a `TokenizeError`.
pub enum TokenizeFault {
    UnterminatedToken(TokenView),
    MissingExpansionDelimiter(Seq<char>),
    UnknownExpansion(Seq<char>),
}

impl View for TokenizeError {
    type V = TokenizeFault;

    open spec fn view(&self) -> TokenizeFault {
        match self {
            TokenizeError::UnterminatedToken { token } => TokenizeFault::UnterminatedToken(token@),
            TokenizeError::MissingExpansionDelimiter { expansion } => TokenizeFault::MissingExpansionDelimiter(
                expansion@,
            ),
            TokenizeError::UnknownExpansion { kind } => TokenizeFault::UnknownExpansion(kind@),
        }
    }
}

/// Whitespace that separates tokens (ASCII whitespace).
pub open spec fn is_blank(c: char) -> bool {
    c == ' ' || c == '\t' || c == '\n' || c == '\r' || c == '\x0C'
}

/// The quote that a character opens, if any.
pub open spec fn quote_of(c: char) -> Option<Quote> {
    if c == '\'' {
        Some(Quote::Single)
    } else if c == '"' {
        Some(Quote::Double)
    } else if c == '`' {
        Some(Quote::Backtick)
    } else {
        None
    }
}

/// The character of a quote.
pub open spec fn quote_char(q: Quote) -> char {
    match q {
        Quote::Single => '\'',
        Quote::Double => '"',
        Quote::Backtick => '`',
    }
}

/// The first position at or after `pos` that does not hold whitespace.
pub open spec fn blanks_end(s: Seq<char>, pos: int) -> int
    decreases s.len() - pos,
{
    if 0 <= pos < s.len() && is_blank(s[pos]) {
        blanks_end(s, pos + 1)
    } else {
        pos
    }
}

/// The first position at or after `pos` that holds whitespace, or the end of `s`.
pub open spec fn word_end(s: Seq<char>, pos: int) -> int
    decreases s.len() - pos,
{
    if 0 <= pos < s.len() && !is_blank(s[pos]) {
        word_end(s, pos + 1)
    } else {
        pos
    }
}

/// Reads the inside of a token quoted by `q`, from `pos` (just after the opening
/// quote): its content, the position after the closing quote (or the end of
/// input), and whether the closing quote was found.
pub open spec fn quoted_body(s: Seq<char>, pos: int, q: char) -> (Seq<char>, int, bool)
    decreases s.len() - pos,
{
    if pos < 0 || pos >= s.len() {
        (Seq::empty(), s.len() as int, false)
    } else if s[pos] == q {
        if pos + 1 < s.len() && s[pos + 1] == q {
            let r = quoted_body(s, pos + 2, q);
            (seq![q] + r.0, r.1, r.2)
        } else {
            (Seq::empty(), pos + 1, true)
        }
    } else {
        let r = quoted_body(s, pos + 1, q);
        (seq![s[pos]] + r.0, r.1, r.2)
    }
}

/// A lowercase ASCII letter, as expansion kinds are written.
pub open spec fn is_lower(c: char) -> bool {
    'a' <= c <= 'z'
}

/// The first position at or after `pos` that does not hold a lowercase letter.
pub open spec fn lower_end(s: Seq<char>, pos: int) -> int
    decreases s.len() - pos,
{
    if 0 <= pos < s.len() && is_lower(s[pos]) {
        lower_end(s, pos + 1)
    } else {
        pos
    }
}

/// The closing delimiter of an expansion opened by `c`, if `c` opens one.
pub open spec fn closing_delimiter(c: char) -> Option<char> {
    if c == '(' {
        Some(')')
    } else if c == '[' {
        Some(']')
    } else if c == '{' {
        Some('}')
    } else if c == '<' {
        Some('>')
    } else if c == '\'' || c == '"' || c == '|' {
        Some(c)
    } else {
        None
    }
}

/// The expansion kind that a name stands for.
pub open spec fn expansion_kind_named(k: Seq<char>) -> Option<ExpansionKind> {
    if k.len() == 0 {
        Some(ExpansionKind::Variable)
    } else if k.len() == 1 && k[0] == 'u' {
        Some(ExpansionKind::Unicode)
    } else if k.len() == 2 && k[0] == 's' && k[1] == 'h' {
        Some(ExpansionKind::Shell)
    } else {
        None
    }
}

/// Reads the content of an expansion opened by `open`, from `pos` (just after the
/// opening delimiter) with `depth` nested brackets open: its content, the position
/// after the closing delimiter (or the end of input), and whether it was closed.
pub open spec fn delimited_body(s: Seq<char>, pos: int, open: char, close: char, depth: nat) -> (
    Seq<char>,
    int,
    bool,
)
    decreases s.len() - pos,
{
    if pos < 0 || pos >= s.len() {
        (Seq::empty(), s.len() as int, false)
    } else if s[pos] == close && depth == 0 {
        (Seq::empty(), pos + 1, true)
    } else {
        let d: nat = if s[pos] == close {
            (depth - 1) as nat
        } else if s[pos] == open {
            depth + 1
        } else {
            depth
        };
        let r = delimited_body(s, pos + 1, open, close, d);
        (seq![s[pos]] + r.0, r.1, r.2)
    }
}

/// The token that starts with `%` at `start`, with the position just after it.
pub open spec fn percent_token(s: Seq<char>, start: int) -> (TokenView, int) {
    let ke = lower_end(s, start + 1);
    let kind = s.subrange(start + 1, ke);
    if ke >= s.len() || closing_delimiter(s[ke]) is None {
        (
            TokenView {
                kind: TokenKind::ExpansionKind,
                content_start: (start + 1) as nat,
                content: kind,
                is_terminated: false,
            },
            ke,
        )
    } else {
        match expansion_kind_named(kind) {
            None => {
                let end = word_end(s, start);
                (
                    TokenView {
                        kind: TokenKind::Unquoted,
                        content_start: start as nat,
                        content: s.subrange(start, end),
                        is_terminated: true,
                    },
                    end,
                )
            },
            Some(k) => {
                let close = match closing_delimiter(s[ke]) {
                    Some(c) => c,
                    None => s[ke],
                };
                let r = delimited_body(s, ke + 1, s[ke], close, 0);
                (
                    TokenView {
                        kind: TokenKind::Expansion(k),
                        content_start: (ke + 1) as nat,
                        content: r.0,
                        is_terminated: r.2,
                    },
                    r.1,
                )
            },
        }
    }
}

/// The next token of `s` at or after `pos`, with the position just after it, as
/// read without validation.
pub open spec fn next_token(s: Seq<char>, pos: int) -> Option<(TokenView, int)> {
    let start = blanks_end(s, pos);
    if start < 0 || start >= s.len() {
        None
    } else if s[start] == '%' {
        Some(percent_token(s, start))
    } else {
        match quote_of(s[start]) {
            Some(q) => {
                let r = quoted_body(s, start + 1, quote_char(q));
                Some(
                    (
                        TokenView {
                            kind: TokenKind::Quoted(q),
                            content_start: (start + 1) as nat,
                            content: r.0,
                            is_terminated: r.2,
                        },
                        r.1,
                    ),
                )
            },
            None => {
                let end = word_end(s, start);
                Some(
                    (
                        TokenView {
                            kind: TokenKind::Unquoted,
                            content_start: start as nat,
                            content: s.subrange(start, end),
                            is_terminated: true,
                        },
                        end,
                    ),
                )
            },
        }
    }
}

/// What validation refuses in the next token of `s` at or after `pos`, if anything.
pub open spec fn token_error(s: Seq<char>, pos: int) -> Option<TokenizeFault> {
    let start = blanks_end(s, pos);
    if start < 0 || start >= s.len() {
        None
    } else if s[start] == '%' {
        let ke = lower_end(s, start + 1);
        let kind = s.subrange(start + 1, ke);
        if ke >= s.len() || closing_delimiter(s[ke]) is None {
            Some(TokenizeFault::MissingExpansionDelimiter(kind))
        } else if expansion_kind_named(kind) is None {
            Some(TokenizeFault::UnknownExpansion(kind))
        } else if percent_token(s, start).0.is_terminated {
            None
        } else {
            Some(TokenizeFault::UnterminatedToken(percent_token(s, start).0))
        }
    } else {
        match next_token(s, pos) {
            Some((tok, _)) => if tok.is_terminated {
                None
            } else {
                Some(TokenizeFault::UnterminatedToken(tok))
            },
            None => None,
        }
    }
}

/// The raw remainder of `s` from `pos`, leading whitespace skipped.
pub open spec fn rest_token(s: Seq<char>, pos: int) -> Option<TokenView> {
    let start = blanks_end(s, pos);
    if start < 0 || start >= s.len() {
        None
    } else {
        Some(
            TokenView {
                kind: TokenKind::Expand,
                content_start: start as nat,
                content: s.subrange(start, s.len() as int),
                is_terminated: true,
            },
        )
    }
}

pub proof fn lemma_blanks_end(s: Seq<char>, pos: int)
    requires
        0 <= pos <= s.len(),
    ensures
        pos <= blanks_end(s, pos) <= s.len(),
        blanks_end(s, pos) < s.len() ==> !is_blank(s[blanks_end(s, pos)]),
        forall|i: int| pos <= i < blanks_end(s, pos) ==> is_blank(#[trigger] s[i]),
    decreases s.len() - pos,
{
    if pos < s.len() && is_blank(s[pos]) {
        lemma_blanks_end(s, pos + 1);
    }
}

pub proof fn lemma_word_end(s: Seq<char>, pos: int)
    requires
        0 <= pos <= s.len(),
    ensures
        pos <= word_end(s, pos) <= s.len(),
        word_end(s, pos) < s.len() ==> is_blank(s[word_end(s, pos)]),
        forall|i: int| pos <= i < word_end(s, pos) ==> !is_blank(#[trigger] s[i]),
    decreases s.len() - pos,
{
    if pos < s.len() && !is_blank(s[pos]) {
        lemma_word_end(s, pos + 1);
    }
}

pub proof fn lemma_quoted_body(s: Seq<char>, pos: int, q: char)
    requires
        0 <= pos <= s.len(),
    ensures
        pos <= quoted_body(s, pos, q).1 <= s.len(),
        !quoted_body(s, pos, q).2 ==> quoted_body(s, pos, q).1 == s.len(),
    decreases s.len() - pos,
{
    if pos < s.len() {
        if s[pos] == q {
            if pos + 1 < s.len() && s[pos + 1] == q {
                lemma_quoted_body(s, pos + 2, q);
            }
        } else {
            lemma_quoted_body(s, pos + 1, q);
        }
    }
}

pub proof fn lemma_lower_end(s: Seq<char>, pos: int)
    requires
        0 <= pos <= s.len(),
    ensures
        pos <= lower_end(s, pos) <= s.len(),
        forall|i: int| pos <= i < lower_end(s, pos) ==> is_lower(#[trigger] s[i]),
    decreases s.len() - pos,
{
    if pos < s.len() && is_lower(s[pos]) {
        lemma_lower_end(s, pos + 1);
    }
}

pub proof fn lemma_delimited_body(s: Seq<char>, pos: int, open: char, close: char, depth: nat)
    requires
        0 <= pos <= s.len(),
    ensures
        pos <= delimited_body(s, pos, open, close, depth).1 <= s.len(),
        !delimited_body(s, pos, open, close, depth).2 ==> delimited_body(s, pos, open, close, depth).1
            == s.len(),
    decreases s.len() - pos,
{
    if pos < s.len() && !(s[pos] == close && depth == 0) {
        let d: nat = if s[pos] == close {
            (depth - 1) as nat
        } else if s[pos] == open {
            depth + 1
        } else {
            depth
        };
        lemma_delimited_body(s, pos + 1, open, close, d);
    }
}

/// A token read by `next_token` ends after the position it was read from, and
/// within the input.
pub proof fn lemma_next_token_advances(s: Seq<char>, pos: int)
    requires
        0 <= pos <= s.len(),
    ensures
        next_token(s, pos) matches Some((_, end)) ==> pos < end <= s.len(),
        next_token(s, pos) is None ==> blanks_end(s, pos) == s.len(),
{
    lemma_blanks_end(s, pos);
    let start = blanks_end(s, pos);
    if start < s.len() && s[start] == '%' {
        lemma_lower_end(s, start + 1);
        let ke = lower_end(s, start + 1);
        if ke < s.len() && closing_delimiter(s[ke]) is Some {
            lemma_delimited_body(s, ke + 1, s[ke], closing_delimiter(s[ke])->0, 0);
            lemma_word_end(s, start);
            assert(word_end(s, start) == word_end(s, start + 1));
            lemma_word_end(s, start + 1);
        }
    } else if start < s.len() {
        match quote_of(s[start]) {
            Some(q) => lemma_quoted_body(s, start + 1, quote_char(q)),
            None => {
                lemma_word_end(s, start);
                assert(word_end(s, start) == word_end(s, start + 1));
                lemma_word_end(s, start + 1);
            },
        }
    }
}

/// A text written inside quotes `q`: each `q` in it doubled.
pub open spec fn escape_quotes(c: Seq<char>, q: char) -> Seq<char>
    decreases c.len(),
{
    if c.len() == 0 {
        Seq::empty()
    } else if c[0] == q {
        seq![q, q] + escape_quotes(c.drop_first(), q)
    } else {
        seq![c[0]] + escape_quotes(c.drop_first(), q)
    }
}

proof fn lemma_quoted_body_escaped(s: Seq<char>, pos: int, c: Seq<char>, q: char)
    requires
        0 <= pos,
        pos + escape_quotes(c, q).len() + 1 <= s.len(),
        s.subrange(pos, pos + escape_quotes(c, q).len() + 1) == escape_quotes(c, q) + seq![q],
        pos + escape_quotes(c, q).len() + 1 == s.len() || s[pos + escape_quotes(c, q).len() + 1] != q,
    ensures
        quoted_body(s, pos, q) == (c, pos + escape_quotes(c, q).len() + 1, true),
    decreases c.len(),
{
    let e = escape_quotes(c, q);
    assert(s[pos + e.len()] == (e + seq![q])[e.len() as int]);
    if c.len() == 0 {
        assert(s[pos] == q);
    } else {
        let e1 = escape_quotes(c.drop_first(), q);
        if c[0] == q {
            assert(e == seq![q, q] + e1);
            assert(s[pos] == (e + seq![q])[0]);
            assert(s[pos + 1] == (e + seq![q])[1]);
            assert(s.subrange(pos + 2, pos + 2 + e1.len() + 1) =~= e1 + seq![q]) by {
                assert forall|i: int| 0 <= i < e1.len() + 1 implies s.subrange(pos + 2, pos + 2 + e1.len() + 1)[i]
                    == (e1 + seq![q])[i] by {
                    assert(s[pos + 2 + i] == s.subrange(pos, pos + e.len() + 1)[2 + i]);
                }
            }
            lemma_quoted_body_escaped(s, pos + 2, c.drop_first(), q);
            assert(seq![q] + c.drop_first() =~= c);
        } else {
            assert(e == seq![c[0]] + e1);
            assert(s[pos] == (e + seq![q])[0]);
            assert(s.subrange(pos + 1, pos + 1 + e1.len() + 1) =~= e1 + seq![q]) by {
                assert forall|i: int| 0 <= i < e1.len() + 1 implies s.subrange(pos + 1, pos + 1 + e1.len() + 1)[i]
                    == (e1 + seq![q])[i] by {
                    assert(s[pos + 1 + i] == s.subrange(pos, pos + e.len() + 1)[1 + i]);
                }
            }
            lemma_quoted_body_escaped(s, pos + 1, c.drop_first(), q);
            assert(seq![c[0]] + c.drop_first() =~= c);
        }
    }
}

/// Quoting reads back: a text written between quotes, with each quote character
/// in it doubled, is read as one token holding exactly that text, when the closing
/// quote ends the input or is followed by whitespace.
pub proof fn law_quoting_round_trip(c: Seq<char>, q: Quote, tail: Seq<char>)
    requires
        tail.len() == 0 || is_blank(tail[0]),
    ensures
        ({
            let qc = quote_char(q);
            let written = seq![qc] + escape_quotes(c, qc) + seq![qc];
            next_token(written + tail, 0) == Some(
                (
                    TokenView {
                        kind: TokenKind::Quoted(q),
                        content_start: 1,
                        content: c,
                        is_terminated: true,
                    },
                    written.len() as int,
                ),
            )
        }),
{
    let qc = quote_char(q);
    let e = escape_quotes(c, qc);
    let written = seq![qc] + e + seq![qc];
    let s = written + tail;
    assert(s[0] == qc);
    assert(!is_blank(qc));
    assert(blanks_end(s, 0) == 0);
    assert(quote_of(qc) == Some(q));
    assert(s.subrange(1, 1 + e.len() as int + 1) =~= e + seq![qc]);
    if tail.len() > 0 {
        assert(s[1 + e.len() as int + 1] == tail[0]);
    }
    lemma_quoted_body_escaped(s, 1, c, qc);
}

/// Reads tokens out of a command line.
pub struct Tokenizer {
    input: Vec<char>,
    validate: bool,
    pos: usize,
}

impl Tokenizer {
    #[verifier::type_invariant]
    spec fn inv(self) -> bool {
        self.pos <= self.input@.len()
    }

    /// The characters of the command line being read.
    pub closed spec fn input(&self) -> Seq<char> {
        self.input@
    }

    /// The position (in characters) up to which the input has been read.
    pub closed spec fn pos(&self) -> nat {
        self.pos as nat
    }

    /// Whether an unterminated quoted token is reported as an error.
    pub closed spec fn validates(&self) -> bool {
        self.validate
    }

    /// A tokenizer positioned at the start of `input`.
    pub fn new(input: &str, validate: bool) -> (t: Tokenizer)
        ensures
            t.input() == input@,
            t.pos() == 0,
            t.validates() == validate,
    {
        Tokenizer { input: chars_of(input), validate, pos: 0 }
    }

    fn skip_blanks(&mut self)
        ensures
            final(self).input() == old(self).input(),
            final(self).validates() == old(self).validates(),
            final(self).pos() == blanks_end(old(self).input(), old(self).pos() as int),
    {
        proof {
            use_type_invariant(&*self);
        }
        let ghost s = self.input@;
        let ghost p0 = self.pos as int;
        let ghost v0 = self.validate;
        while self.pos < self.input.len() && is_blank_char(self.input[self.pos])
            invariant
                self.input@ == s,
                self.validate == v0,
                0 <= p0 <= self.pos <= s.len(),
                blanks_end(s, self.pos as int) == blanks_end(s, p0),
            decreases s.len() - self.pos,
        {
            self.pos = self.pos + 1;
        }
    }

    fn read_quoted(&mut self, q: char) -> (r: (String, bool))
        ensures
            final(self).input() == old(self).input(),
            final(self).validates() == old(self).validates(),
            r.0@ == quoted_body(old(self).input(), old(self).pos() as int, q).0,
            r.1 == quoted_body(old(self).input(), old(self).pos() as int, q).2,
            final(self).pos() == quoted_body(old(self).input(), old(self).pos() as int, q).1,
    {
        proof {
            use_type_invariant(&*self);
        }
        let ghost s = self.input@;
        let ghost p0 = self.pos as int;
        let ghost v0 = self.validate;
        let mut content = String::new();
        let n = self.input.len();
        loop
            invariant
                self.input@ == s,
                self.validate == v0,
                s == old(self).input(),
                v0 == old(self).validates(),
                p0 == old(self).pos(),
                n == s.len(),
                0 <= self.pos <= n,
                quoted_body(s, p0, q).0 == content@ + quoted_body(s, self.pos as int, q).0,
                quoted_body(s, p0, q).1 == quoted_body(s, self.pos as int, q).1,
                quoted_body(s, p0, q).2 == quoted_body(s, self.pos as int, q).2,
            decreases n - self.pos,
        {
            if self.pos >= n {
                assert(content@ + Seq::<char>::empty() =~= content@);
                self.pos = n;
                return (content, false);
            }
            let c = self.input[self.pos];
            if c == q {
                if self.pos + 1 < n && self.input[self.pos + 1] == q {
                    let ghost before = content@;
                    push_char(&mut content, q);
                    let ghost r = quoted_body(s, self.pos + 2, q);
                    assert(before + (seq![q] + r.0) =~= content@ + r.0);
                    self.pos = self.pos + 2;
                } else {
                    assert(content@ + Seq::<char>::empty() =~= content@);
                    self.pos = self.pos + 1;
                    return (content, true);
                }
            } else {
                let ghost before = content@;
                push_char(&mut content, c);
                let ghost r = quoted_body(s, self.pos + 1, q);
                assert(before + (seq![c] + r.0) =~= content@ + r.0);
                self.pos = self.pos + 1;
            }
        }
    }

    fn skip_lower(&mut self)
        ensures
            final(self).input() == old(self).input(),
            final(self).validates() == old(self).validates(),
            final(self).pos() == lower_end(old(self).input(), old(self).pos() as int),
    {
        proof {
            use_type_invariant(&*self);
        }
        let ghost s = self.input@;
        let ghost p0 = self.pos as int;
        let ghost v0 = self.validate;
        while self.pos < self.input.len() && is_lower_char(self.input[self.pos])
            invariant
                self.input@ == s,
                self.validate == v0,
                0 <= p0 <= self.pos <= s.len(),
                lower_end(s, self.pos as int) == lower_end(s, p0),
            decreases s.len() - self.pos,
        {
            self.pos = self.pos + 1;
        }
    }

    fn skip_word(&mut self)
        ensures
            final(self).input() == old(self).input(),
            final(self).validates() == old(self).validates(),
            final(self).pos() == word_end(old(self).input(), old(self).pos() as int),
    {
        proof {
            use_type_invariant(&*self);
        }
        let ghost s = self.input@;
        let ghost p0 = self.pos as int;
        let ghost v0 = self.validate;
        while self.pos < self.input.len() && !is_blank_char(self.input[self.pos])
            invariant
                self.input@ == s,
                self.validate == v0,
                0 <= p0 <= self.pos <= s.len(),
                word_end(s, self.pos as int) == word_end(s, p0),
            decreases s.len() - self.pos,
        {
            self.pos = self.pos + 1;
        }
    }

    fn read_delimited(&mut self, open: char, close: char) -> (r: (String, bool))
        ensures
            final(self).input() == old(self).input(),
            final(self).validates() == old(self).validates(),
            r.0@ == delimited_body(old(self).input(), old(self).pos() as int, open, close, 0).0,
            r.1 == delimited_body(old(self).input(), old(self).pos() as int, open, close, 0).2,
            final(self).pos() == delimited_body(old(self).input(), old(self).pos() as int, open, close, 0).1,
    {
        proof {
            use_type_invariant(&*self);
        }
        let ghost s = self.input@;
        let ghost p0 = self.pos as int;
        let ghost v0 = self.validate;
        let mut content = String::new();
        let n = self.input.len();
        let mut depth: usize = 0;
        loop
            invariant
                self.input@ == s,
                self.validate == v0,
                s == old(self).input(),
                v0 == old(self).validates(),
                p0 == old(self).pos(),
                n == s.len(),
                p0 <= self.pos <= n,
                depth <= self.pos - p0,
                delimited_body(s, p0, open, close, 0).0 == content@ + delimited_body(
                    s,
                    self.pos as int,
                    open,
                    close,
                    depth as nat,
                ).0,
                delimited_body(s, p0, open, close, 0).1 == delimited_body(
                    s,
                    self.pos as int,
                    open,
                    close,
                    depth as nat,
                ).1,
                delimited_body(s, p0, open, close, 0).2 == delimited_body(
                    s,
                    self.pos as int,
                    open,
                    close,
                    depth as nat,
                ).2,
            decreases n - self.pos,
        {
            if self.pos >= n {
                assert(content@ + Seq::<char>::empty() =~= content@);
                self.pos = n;
                return (content, false);
            }
            let c = self.input[self.pos];
            if c == close && depth == 0 {
                assert(content@ + Seq::<char>::empty() =~= content@);
                self.pos = self.pos + 1;
                return (content, true);
            }
            let ghost d0 = depth as nat;
            if c == close {
                depth = depth - 1;
            } else if c == open {
                depth = depth + 1;
            }
            let ghost before = content@;
            push_char(&mut content, c);
            let ghost r = delimited_body(s, self.pos + 1, open, close, depth as nat);
            assert(delimited_body(s, self.pos as int, open, close, d0) == (seq![c] + r.0, r.1, r.2));
            assert(before + (seq![c] + r.0) =~= content@ + r.0);
            self.pos = self.pos + 1;
        }
    }

    /// Reads the next token.
    ///
    /// Returns `None` when only whitespace is left. A quoted token that is not closed
    /// before the end of the input is an error when the tokenizer validates, and is
    /// returned with `is_terminated` unset otherwise.
    pub fn next(&mut self) -> (r: Option<Result<Token, TokenizeError>>)
        ensures
            final(self).input() == old(self).input(),
            final(self).validates() == old(self).validates(),
            match next_token(old(self).input(), old(self).pos() as int) {
                None => r is None && final(self).pos() == old(self).input().len(),
                Some((tok, end)) => {
                    &&& final(self).pos() == end
                    &&& if old(self).validates() && token_error(
                        old(self).input(),
                        old(self).pos() as int,
                    ) is Some {
                        r matches Some(Err(e)) && Some(e@) == token_error(
                            old(self).input(),
                            old(self).pos() as int,
                        )
                    } else {
                        r matches Some(Ok(token)) && token@ == tok
                    }
                },
            },
    {
        proof {
            use_type_invariant(&*self);
            lemma_blanks_end(self.input@, self.pos as int);
        }
        self.skip_blanks();
        let n = self.input.len();
        if self.pos >= n {
            return None;
        }
        let start = self.pos;
        let c = self.input[start];
        if c == '%' {
            let ghost s = self.input@;
            proof {
                lemma_lower_end(s, start + 1);
            }
            let ks = start + 1;
            self.pos = ks;
            self.skip_lower();
            let ke = self.pos;
            let close = if ke < n {
                closing_delimiter_of(self.input[ke])
            } else {
                None
            };
            match close {
                None => {
                    let kind = string_from_range(&self.input, ks, ke);
                    if self.validate {
                        return Some(Err(TokenizeError::MissingExpansionDelimiter { expansion: kind }));
                    }
                    return Some(
                        Ok(
                            Token {
                                kind: TokenKind::ExpansionKind,
                                content_start: ks,
                                content: kind,
                                is_terminated: false,
                            },
                        ),
                    );
                },
                Some(cl) => {
                    match expansion_kind_in(&self.input, ks, ke) {
                        None => {
                            let kind = string_from_range(&self.input, ks, ke);
                            self.pos = start;
                            proof {
                                lemma_word_end(s, start as int);
                            }
                            self.skip_word();
                            if self.validate {
                                return Some(Err(TokenizeError::UnknownExpansion { kind }));
                            }
                            let content = string_from_range(&self.input, start, self.pos);
                            return Some(
                                Ok(
                                    Token {
                                        kind: TokenKind::Unquoted,
                                        content_start: start,
                                        content,
                                        is_terminated: true,
                                    },
                                ),
                            );
                        },
                        Some(k) => {
                            let open = self.input[ke];
                            self.pos = ke + 1;
                            let (content, terminated) = self.read_delimited(open, cl);
                            let token = Token {
                                kind: TokenKind::Expansion(k),
                                content_start: ke + 1,
                                content,
                                is_terminated: terminated,
                            };
                            if self.validate && !terminated {
                                return Some(Err(TokenizeError::UnterminatedToken { token }));
                            }
                            return Some(Ok(token));
                        },
                    }
                },
            }
        }
        let q = quote_char_of(c);
        match q {
            Some(quote) => {
                self.pos = start + 1;
                let (content, terminated) = self.read_quoted(c);
                let token = Token {
                    kind: TokenKind::Quoted(quote),
                    content_start: start + 1,
                    content,
                    is_terminated: terminated,
                };
                if self.validate && !terminated {
                    Some(Err(TokenizeError::UnterminatedToken { token }))
                } else {
                    Some(Ok(token))
                }
            },
            None => {
                let ghost s = self.input@;
                let ghost v0 = self.validate;
                while self.pos < n && !is_blank_char(self.input[self.pos])
                    invariant
                        self.input@ == s,
                        self.validate == v0,
                        n == s.len(),
                        start <= self.pos <= n,
                        word_end(s, self.pos as int) == word_end(s, start as int),
                    decreases n - self.pos,
                {
                    self.pos = self.pos + 1;
                }
                let content = string_from_range(&self.input, start, self.pos);
                Some(
                    Ok(
                        Token {
                            kind: TokenKind::Unquoted,
                            content_start: start,
                            content,
                            is_terminated: true,
                        },
                    ),
                )
            },
        }
    }

    /// Reads the rest of the input, leading whitespace skipped, as one raw token.
    ///
    /// Returns `None` when only whitespace is left. Afterwards the whole input has
    /// been read.
    pub fn rest(&mut self) -> (r: Option<Token>)
        ensures
            final(self).input() == old(self).input(),
            final(self).validates() == old(self).validates(),
            final(self).pos() == old(self).input().len(),
            match rest_token(old(self).input(), old(self).pos() as int) {
                None => r is None,
                Some(tok) => r matches Some(token) && token@ == tok,
            },
    {
        proof {
            use_type_invariant(&*self);
            lemma_blanks_end(self.input@, self.pos as int);
        }
        self.skip_blanks();
        let n = self.input.len();
        if self.pos >= n {
            self.pos = n;
            return None;
        }
        let start = self.pos;
        let content = string_from_range(&self.input, start, n);
        self.pos = n;
        Some(Token { kind: TokenKind::Expand, content_start: start, content, is_terminated: true })
    }
}

/// Whether a character separates tokens.
pub fn is_blank_char(c: char) -> (r: bool)
    ensures
        r == is_blank(c),
{
    c == ' ' || c == '\t' || c == '\n' || c == '\r' || c == '\x0C'
}

/// Whether a character is a lowercase ASCII letter.
pub fn is_lower_char(c: char) -> (r: bool)
    ensures
        r == is_lower(c),
{
    'a' <= c && c <= 'z'
}

/// The closing delimiter of an expansion opened by `c`, if `c` opens one.
pub fn closing_delimiter_of(c: char) -> (r: Option<char>)
    ensures
        r == closing_delimiter(c),
{
    if c == '(' {
        Some(')')
    } else if c == '[' {
        Some(']')
    } else if c == '{' {
        Some('}')
    } else if c == '<' {
        Some('>')
    } else if c == '\'' || c == '"' || c == '|' {
        Some(c)
    } else {
        None
    }
}

/// The expansion kind named by the characters `v[start..end]`.
pub fn expansion_kind_in(v: &Vec<char>, start: usize, end: usize) -> (r: Option<ExpansionKind>)
    requires
        start <= end <= v@.len(),
    ensures
        r == expansion_kind_named(v@.subrange(start as int, end as int)),
{
    let len = end - start;
    if len == 0 {
        Some(ExpansionKind::Variable)
    } else if len == 1 && v[start] == 'u' {
        Some(ExpansionKind::Unicode)
    } else if len == 2 && v[start] == 's' && v[start + 1] == 'h' {
        Some(ExpansionKind::Shell)
    } else {
        None
    }
}

/// The quote that a character opens, if any.
pub fn quote_char_of(c: char) -> (r: Option<Quote>)
    ensures
        r == quote_of(c),
        r matches Some(q) ==> quote_char(q) == c,
{
    if c == '\'' {
        Some(Quote::Single)
    } else if c == '"' {
        Some(Quote::Double)
    } else if c == '`' {
        Some(Quote::Backtick)
    } else {
        None
    }
}


/// The name an expansion kind is written with after `%`.
pub open spec fn expansion_kind_name(k: ExpansionKind) -> Seq<char> {
    match k {
        ExpansionKind::Variable => Seq::empty(),
        ExpansionKind::Unicode => seq!['u'],
        ExpansionKind::Shell => seq!['s', 'h'],
    }
}

/// An expansion's kind is read from exactly its name: `` for a variable, `u` for a
/// Unicode code point, `sh` for a shell command.
pub proof fn law_expansion_kind_names(name: Seq<char>, k: ExpansionKind)
    ensures
        expansion_kind_named(name) == Some(k) <==> name == expansion_kind_name(k),
{
    if name == expansion_kind_name(k) {
        match k {
            ExpansionKind::Variable => {},
            ExpansionKind::Unicode => {
                assert(name.len() == 1 && name[0] == 'u');
            },
            ExpansionKind::Shell => {
                assert(name.len() == 2 && name[0] == 's' && name[1] == 'h');
            },
        }
    }
    if expansion_kind_named(name) == Some(k) {
        if name.len() == 0 {
            assert(name =~= Seq::<char>::empty());
        } else if name.len() == 1 {
            assert(name =~= seq!['u']);
        } else if name.len() == 2 {
            assert(name =~= seq!['s', 'h']);
        }
    }
}


} // verus!
