//! The lexical scanner: turns source bytes into tokens on demand.
//!
//! The scanner keeps a byte cursor and a 1-based line counter. Each
//! `scan_token` call consumes leading whitespace and line comments,
//! then recognizes the longest lexeme at the cursor and returns one
//! token. What it returns and where it leaves the cursor is pinned
//! down by the specification scanner `spec_scan`.

use vstd::prelude::*;

verus! {

/// The closed set of token kinds: punctuation, one- and two-byte
/// operators, literals, identifiers and keywords, and the two
/// sentinel kinds `Error` (an unrecognized or unterminated lexeme)
/// and `Eof` (the end of the source, returned over and over once
/// reached).
#[derive(Clone, Copy, Debug, PartialEq, Eq, Structural)]
pub enum TokenType {
    LeftParen,
    RightParen,
    LeftBrace,
    RightBrace,
    Comma,
    Dot,
    Minus,
    Plus,
    Semicolon,
    Slash,
    Star,
    Bang,
    BangEqual,
    Equal,
    EqualEqual,
    Greater,
    GreaterEqual,
    Less,
    LessEqual,
    Identifier,
    Str,
    Number,
    And,
    Class,
    Else,
    False,
    For,
    Fun,
    If,
    Nil,
    Or,
    Print,
    Return,
    Super,
    This,
    True,
    Var,
    While,
    Error,
    Eof,
}

/// A classified, located lexeme: its kind, the byte range
/// `start .. start + length` of the exact source substring it
/// covers, and the 1-based line it is attributed to.
#[derive(Clone, Copy, Debug, PartialEq, Eq, Structural)]
pub struct Token {
    pub token_type: TokenType,
    pub start: usize,
    pub length: usize,
    pub line: usize,
}

/// What one `scan_token` call comes to: the token's kind, the byte
/// range `start .. end` of its lexeme (which is also where the
/// cursor ends up), and the scanner's line afterwards, which is the
/// line the token carries.
pub ghost struct ScanResult {
    pub token_type: TokenType,
    pub start: int,
    pub end: int,
    pub line: int,
}

/// The bytes the scanner branches on, by name.
pub const SPACE: u8 = 32;

pub const TAB: u8 = 9;

pub const CARRIAGE_RETURN: u8 = 13;

pub const NEWLINE: u8 = 10;

pub const SLASH: u8 = 47;

pub const QUOTE: u8 = 34;

pub const DOT: u8 = 46;

pub const EQUALS: u8 = 61;

/// An ASCII decimal digit.
pub open spec fn is_digit(b: u8) -> bool {
    48 <= b && b <= 57
}

/// An ASCII letter or underscore: what may start an identifier.
pub open spec fn is_alpha(b: u8) -> bool {
    (97 <= b && b <= 122) || (65 <= b && b <= 90) || b == 95
}

/// What may continue an identifier.
pub open spec fn is_alphanumeric(b: u8) -> bool {
    is_alpha(b) || is_digit(b)
}

/// Where the cursor and line counter stand after consuming leading
/// whitespace and line comments from position `i` on line `line`.
/// `in_comment` says whether the cursor stands inside a `//` comment,
/// which runs to the next newline; the newline itself is consumed as
/// whitespace. Returns the pair (cursor, line).
pub open spec fn spec_skip(src: Seq<u8>, i: int, line: int, in_comment: bool) -> (int, int)
    decreases src.len() - i,
{
    if i < 0 || i >= src.len() {
        (i, line)
    } else if in_comment {
        if src[i] == NEWLINE {
            spec_skip(src, i + 1, line + 1, false)
        } else {
            spec_skip(src, i + 1, line, true)
        }
    } else if src[i] == SPACE || src[i] == TAB || src[i] == CARRIAGE_RETURN {
        spec_skip(src, i + 1, line, false)
    } else if src[i] == NEWLINE {
        spec_skip(src, i + 1, line + 1, false)
    } else if src[i] == SLASH && i + 1 < src.len() && src[i + 1] == SLASH {
        spec_skip(src, i + 2, line, true)
    } else {
        (i, line)
    }
}

/// The first position at or after `i` that does not hold a digit.
pub open spec fn spec_digits_end(src: Seq<u8>, i: int) -> int
    decreases src.len() - i,
{
    if i < 0 || i >= src.len() {
        i
    } else if is_digit(src[i]) {
        spec_digits_end(src, i + 1)
    } else {
        i
    }
}

/// Where a number lexeme that starts at `i` ends: its digits, and a
/// fractional part only when a digit follows the dot, so that the
/// dot of `1.x` stays a token of its own.
pub open spec fn spec_number_end(src: Seq<u8>, i: int) -> int {
    let e = spec_digits_end(src, i);
    if e < src.len() && src[e] == DOT && e + 1 < src.len() && is_digit(src[e + 1]) {
        spec_digits_end(src, e + 1)
    } else {
        e
    }
}

/// The first position at or after `i` that does not hold an
/// identifier byte.
pub open spec fn spec_ident_end(src: Seq<u8>, i: int) -> int
    decreases src.len() - i,
{
    if i < 0 || i >= src.len() {
        i
    } else if is_alphanumeric(src[i]) {
        spec_ident_end(src, i + 1)
    } else {
        i
    }
}

/// Scanning a string literal from position `i` (just past the
/// opening quote) on line `line`: the cursor afterwards, the line
/// afterwards (strings may span lines), and whether a closing quote
/// was found before the source ran out.
pub open spec fn spec_string_scan(src: Seq<u8>, i: int, line: int) -> (int, int, bool)
    decreases src.len() - i,
{
    if i < 0 || i >= src.len() {
        (i, line, false)
    } else if src[i] == QUOTE {
        (i + 1, line, true)
    } else if src[i] == NEWLINE {
        spec_string_scan(src, i + 1, line + 1)
    } else {
        spec_string_scan(src, i + 1, line)
    }
}

/// The kind of the identifier lexeme `src[start .. end]`: one of the
/// reserved words, or `Identifier`.
pub open spec fn spec_ident_type(src: Seq<u8>, start: int, end: int) -> TokenType {
    let n = end - start;
    if n == 2 {
        if src[start] == 105 && src[start + 1] == 102 {
            TokenType::If
        } else if src[start] == 111 && src[start + 1] == 114 {
            TokenType::Or
        } else {
            TokenType::Identifier
        }
    } else if n == 3 {
        if src[start] == 97 && src[start + 1] == 110 && src[start + 2] == 100 {
            TokenType::And
        } else if src[start] == 102 && src[start + 1] == 111 && src[start + 2] == 114 {
            TokenType::For
        } else if src[start] == 102 && src[start + 1] == 117 && src[start + 2] == 110 {
            TokenType::Fun
        } else if src[start] == 110 && src[start + 1] == 105 && src[start + 2] == 108 {
            TokenType::Nil
        } else if src[start] == 118 && src[start + 1] == 97 && src[start + 2] == 114 {
            TokenType::Var
        } else {
            TokenType::Identifier
        }
    } else if n == 4 {
        if src[start] == 101 && src[start + 1] == 108 && src[start + 2] == 115 && src[start + 3]
            == 101 {
            TokenType::Else
        } else if src[start] == 116 && src[start + 1] == 104 && src[start + 2] == 105 && src[
            start + 3] == 115 {
            TokenType::This
        } else if src[start] == 116 && src[start + 1] == 114 && src[start + 2] == 117 && src[
            start + 3] == 101 {
            TokenType::True
        } else {
            TokenType::Identifier
        }
    } else if n == 5 {
        if src[start] == 99 && src[start + 1] == 108 && src[start + 2] == 97 && src[start + 3]
            == 115 && src[start + 4] == 115 {
            TokenType::Class
        } else if src[start] == 102 && src[start + 1] == 97 && src[start + 2] == 108 && src[
            start + 3] == 115 && src[start + 4] == 101 {
            TokenType::False
        } else if src[start] == 112 && src[start + 1] == 114 && src[start + 2] == 105 && src[
            start + 3] == 110 && src[start + 4] == 116 {
            TokenType::Print
        } else if src[start] == 115 && src[start + 1] == 117 && src[start + 2] == 112 && src[
            start + 3] == 101 && src[start + 4] == 114 {
            TokenType::Super
        } else if src[start] == 119 && src[start + 1] == 104 && src[start + 2] == 105 && src[
            start + 3] == 108 && src[start + 4] == 101 {
            TokenType::While
        } else {
            TokenType::Identifier
        }
    } else if n == 6 {
        if src[start] == 114 && src[start + 1] == 101 && src[start + 2] == 116 && src[start + 3]
            == 117 && src[start + 4] == 114 && src[start + 5] == 110 {
            TokenType::Return
        } else {
            TokenType::Identifier
        }
    } else {
        TokenType::Identifier
    }
}

/// The token that stands at position `j` on line `line`, once
/// whitespace and comments have been skipped: the end of the source
/// is `Eof`; a letter starts an identifier or keyword; a digit a
/// number; a quote a string (unterminated, an `Error` lexeme running
/// to the end); an operator byte one of the one- or two-byte
/// operators, the longer match preferred; any other byte is an
/// `Error` lexeme of that single byte.
pub open spec fn spec_token_at(src: Seq<u8>, j: int, line: int) -> ScanResult {
    if j < 0 || j >= src.len() {
        ScanResult { token_type: TokenType::Eof, start: j, end: j, line }
    } else {
        let b = src[j];
        if is_alpha(b) {
            let e = spec_ident_end(src, j);
            ScanResult { token_type: spec_ident_type(src, j, e), start: j, end: e, line }
        } else if is_digit(b) {
            ScanResult { token_type: TokenType::Number, start: j, end: spec_number_end(src, j), line }
        } else if b == QUOTE {
            let r = spec_string_scan(src, j + 1, line);
            ScanResult {
                token_type: if r.2 {
                    TokenType::Str
                } else {
                    TokenType::Error
                },
                start: j,
                end: r.0,
                line: r.1,
            }
        } else if b == 40 {
            ScanResult { token_type: TokenType::LeftParen, start: j, end: j + 1, line }
        } else if b == 41 {
            ScanResult { token_type: TokenType::RightParen, start: j, end: j + 1, line }
        } else if b == 123 {
            ScanResult { token_type: TokenType::LeftBrace, start: j, end: j + 1, line }
        } else if b == 125 {
            ScanResult { token_type: TokenType::RightBrace, start: j, end: j + 1, line }
        } else if b == 44 {
            ScanResult { token_type: TokenType::Comma, start: j, end: j + 1, line }
        } else if b == DOT {
            ScanResult { token_type: TokenType::Dot, start: j, end: j + 1, line }
        } else if b == 45 {
            ScanResult { token_type: TokenType::Minus, start: j, end: j + 1, line }
        } else if b == 43 {
            ScanResult { token_type: TokenType::Plus, start: j, end: j + 1, line }
        } else if b == 59 {
            ScanResult { token_type: TokenType::Semicolon, start: j, end: j + 1, line }
        } else if b == SLASH {
            ScanResult { token_type: TokenType::Slash, start: j, end: j + 1, line }
        } else if b == 42 {
            ScanResult { token_type: TokenType::Star, start: j, end: j + 1, line }
        } else if b == 33 {
            if j + 1 < src.len() && src[j + 1] == EQUALS {
                ScanResult { token_type: TokenType::BangEqual, start: j, end: j + 2, line }
            } else {
                ScanResult { token_type: TokenType::Bang, start: j, end: j + 1, line }
            }
        } else if b == EQUALS {
            if j + 1 < src.len() && src[j + 1] == EQUALS {
                ScanResult { token_type: TokenType::EqualEqual, start: j, end: j + 2, line }
            } else {
                ScanResult { token_type: TokenType::Equal, start: j, end: j + 1, line }
            }
        } else if b == 60 {
            if j + 1 < src.len() && src[j + 1] == EQUALS {
                ScanResult { token_type: TokenType::LessEqual, start: j, end: j + 2, line }
            } else {
                ScanResult { token_type: TokenType::Less, start: j, end: j + 1, line }
            }
        } else if b == 62 {
            if j + 1 < src.len() && src[j + 1] == EQUALS {
                ScanResult { token_type: TokenType::GreaterEqual, start: j, end: j + 2, line }
            } else {
                ScanResult { token_type: TokenType::Greater, start: j, end: j + 1, line }
            }
        } else {
            ScanResult { token_type: TokenType::Error, start: j, end: j + 1, line }
        }
    }
}

/// What one `scan_token` call from cursor `i` on line `line` comes
/// to: skip whitespace and comments, then take the token that stands
/// there.
pub open spec fn spec_scan(src: Seq<u8>, i: int, line: int) -> ScanResult {
    let s = spec_skip(src, i, line, false);
    spec_token_at(src, s.0, s.1)
}

/// The scanner: the source bytes, the cursor (index of the next byte
/// to look at), and the current 1-based line.
#[derive(Debug)]
pub struct Scanner {
    pub source: Vec<u8>,
    pub current: usize,
    pub line: usize,
}

/// An ASCII decimal digit.
fn digit(b: u8) -> (r: bool)
    ensures
        r == is_digit(b),
{
    48 <= b && b <= 57
}

/// An ASCII letter or underscore.
fn alpha(b: u8) -> (r: bool)
    ensures
        r == is_alpha(b),
{
    (97 <= b && b <= 122) || (65 <= b && b <= 90) || b == 95
}

/// The kind of the identifier lexeme `source[start .. end]`.
fn ident_type(source: &Vec<u8>, start: usize, end: usize) -> (tt: TokenType)
    requires
        start <= end <= source@.len(),
    ensures
        tt == spec_ident_type(source@, start as int, end as int),
{
    let n = end - start;
    if n == 2 {
        if source[start] == 105 && source[start + 1] == 102 {
            TokenType::If
        } else if source[start] == 111 && source[start + 1] == 114 {
            TokenType::Or
        } else {
            TokenType::Identifier
        }
    } else if n == 3 {
        if source[start] == 97 && source[start + 1] == 110 && source[start + 2] == 100 {
            TokenType::And
        } else if source[start] == 102 && source[start + 1] == 111 && source[start + 2] == 114 {
            TokenType::For
        } else if source[start] == 102 && source[start + 1] == 117 && source[start + 2] == 110 {
            TokenType::Fun
        } else if source[start] == 110 && source[start + 1] == 105 && source[start + 2] == 108 {
            TokenType::Nil
        } else if source[start] == 118 && source[start + 1] == 97 && source[start + 2] == 114 {
            TokenType::Var
        } else {
            TokenType::Identifier
        }
    } else if n == 4 {
        if source[start] == 101 && source[start + 1] == 108 && source[start + 2] == 115
            && source[start + 3] == 101 {
            TokenType::Else
        } else if source[start] == 116 && source[start + 1] == 104 && source[start + 2] == 105
            && source[start + 3] == 115 {
            TokenType::This
        } else if source[start] == 116 && source[start + 1] == 114 && source[start + 2] == 117
            && source[start + 3] == 101 {
            TokenType::True
        } else {
            TokenType::Identifier
        }
    } else if n == 5 {
        if source[start] == 99 && source[start + 1] == 108 && source[start + 2] == 97
            && source[start + 3] == 115 && source[start + 4] == 115 {
            TokenType::Class
        } else if source[start] == 102 && source[start + 1] == 97 && source[start + 2] == 108
            && source[start + 3] == 115 && source[start + 4] == 101 {
            TokenType::False
        } else if source[start] == 112 && source[start + 1] == 114 && source[start + 2] == 105
            && source[start + 3] == 110 && source[start + 4] == 116 {
            TokenType::Print
        } else if source[start] == 115 && source[start + 1] == 117 && source[start + 2] == 112
            && source[start + 3] == 101 && source[start + 4] == 114 {
            TokenType::Super
        } else if source[start] == 119 && source[start + 1] == 104 && source[start + 2] == 105
            && source[start + 3] == 108 && source[start + 4] == 101 {
            TokenType::While
        } else {
            TokenType::Identifier
        }
    } else if n == 6 {
        if source[start] == 114 && source[start + 1] == 101 && source[start + 2] == 116
            && source[start + 3] == 117 && source[start + 4] == 114 && source[start + 5]
            == 110 {
            TokenType::Return
        } else {
            TokenType::Identifier
        }
    } else {
        TokenType::Identifier
    }
}

impl Scanner {
    /// The scanner's invariant: the cursor stays within the source,
    /// the line counter is 1-based and can have grown by at most one
    /// per consumed byte, and the source is small enough that cursor
    /// and line arithmetic cannot overflow.
    pub open spec fn wf(self) -> bool {
        self.current <= self.source@.len() && 1 <= self.line && self.line <= self.current + 1
            && self.source@.len() < usize::MAX
    }

    /// A scanner positioned at the first byte of `source`, on line 1.
    pub fn new(source: Vec<u8>) -> (s: Scanner)
        requires
            source@.len() < usize::MAX,
        ensures
            s.wf(),
            s.source@ == source@,
            s.current == 0,
            s.line == 1,
    {
        Scanner { source, current: 0, line: 1 }
    }

    /// Consume whitespace and line comments: afterwards the cursor
    /// and line stand where `spec_skip` puts them.
    fn skip_whitespace(&mut self)
        requires
            old(self).wf(),
        ensures
            final(self).wf(),
            final(self).source@ == old(self).source@,
            ({
                let s = spec_skip(
                    old(self).source@,
                    old(self).current as int,
                    old(self).line as int,
                    false,
                );
                final(self).current == s.0 && final(self).line == s.1
            }),
    {
        let ghost src = self.source@;
        let ghost i0 = self.current as int;
        let ghost l0 = self.line as int;
        let mut in_comment = false;
        loop
            invariant
                self.wf(),
                self.source@ == src,
                spec_skip(src, i0, l0, false) == spec_skip(
                    src,
                    self.current as int,
                    self.line as int,
                    in_comment,
                ),
            ensures
                self.wf(),
                self.source@ == src,
                spec_skip(src, i0, l0, false) == (self.current as int, self.line as int),
            decreases src.len() - self.current,
        {
            let n = self.source.len();
            if self.current >= n {
                break;
            }
            let c = self.source[self.current];
            if in_comment {
                if c == NEWLINE {
                    self.current = self.current + 1;
                    self.line = self.line + 1;
                    in_comment = false;
                } else {
                    self.current = self.current + 1;
                }
            } else if c == SPACE || c == TAB || c == CARRIAGE_RETURN {
                self.current = self.current + 1;
            } else if c == NEWLINE {
                self.current = self.current + 1;
                self.line = self.line + 1;
            } else if c == SLASH && self.current + 1 < n && self.source[self.current + 1] == SLASH {
                self.current = self.current + 2;
                in_comment = true;
            } else {
                break;
            }
        }
    }

    /// Consume digits: afterwards the cursor stands at the first
    /// non-digit at or after where it was.
    fn consume_digits(&mut self)
        requires
            old(self).wf(),
        ensures
            final(self).wf(),
            final(self).source@ == old(self).source@,
            final(self).line == old(self).line,
            old(self).current <= final(self).current,
            final(self).current == spec_digits_end(old(self).source@, old(self).current as int),
    {
        let ghost src = self.source@;
        let ghost i0 = self.current as int;
        loop
            invariant
                self.wf(),
                self.source@ == src,
                self.line == old(self).line,
                i0 <= self.current,
                spec_digits_end(src, i0) == spec_digits_end(src, self.current as int),
            ensures
                self.wf(),
                self.source@ == src,
                self.line == old(self).line,
                i0 <= self.current,
                self.current == spec_digits_end(src, i0),
            decreases src.len() - self.current,
        {
            let n = self.source.len();
            if self.current < n && digit(self.source[self.current]) {
                self.current = self.current + 1;
            } else {
                break;
            }
        }
    }

    /// Consume identifier bytes: afterwards the cursor stands at the
    /// first byte at or after where it was that cannot continue an
    /// identifier.
    fn consume_ident(&mut self)
        requires
            old(self).wf(),
        ensures
            final(self).wf(),
            final(self).source@ == old(self).source@,
            final(self).line == old(self).line,
            old(self).current <= final(self).current,
            final(self).current == spec_ident_end(old(self).source@, old(self).current as int),
    {
        let ghost src = self.source@;
        let ghost i0 = self.current as int;
        loop
            invariant
                self.wf(),
                self.source@ == src,
                self.line == old(self).line,
                i0 <= self.current,
                spec_ident_end(src, i0) == spec_ident_end(src, self.current as int),
            ensures
                self.wf(),
                self.source@ == src,
                self.line == old(self).line,
                i0 <= self.current,
                self.current == spec_ident_end(src, i0),
            decreases src.len() - self.current,
        {
            let n = self.source.len();
            if self.current < n && (alpha(self.source[self.current]) || digit(
                self.source[self.current],
            )) {
                self.current = self.current + 1;
            } else {
                break;
            }
        }
    }

    /// Consume whitespace and comments, then the longest lexeme at
    /// the cursor, and return its token, exactly as `spec_scan` says:
    /// the cursor ends at the token's end, the line counter at the
    /// token's line. At the end of the source every call returns an
    /// `Eof` token and moves nothing.
    pub fn scan_token(&mut self) -> (t: Token)
        requires
            old(self).wf(),
        ensures
            final(self).wf(),
            final(self).source@ == old(self).source@,
            ({
                let r = spec_scan(old(self).source@, old(self).current as int, old(self).line as int);
                final(self).current == r.end && final(self).line == r.line && t.token_type
                    == r.token_type && t.start == r.start && t.start + t.length == r.end && t.line
                    == r.line
            }),
    {
        self.skip_whitespace();
        let start = self.current;
        let n = self.source.len();
        if self.current >= n {
            return Token { token_type: TokenType::Eof, start, length: 0, line: self.line };
        }
        let c = self.source[self.current];
        if alpha(c) {
            self.consume_ident();
            let tt = ident_type(&self.source, start, self.current);
            return Token {
                token_type: tt,
                start,
                length: self.current - start,
                line: self.line,
            };
        }
        if digit(c) {
            self.consume_digits();
            let m = self.source.len();
            if self.current < m && self.source[self.current] == DOT && self.current + 1 < m
                && digit(self.source[self.current + 1]) {
                self.current = self.current + 1;
                self.consume_digits();
            }
            return Token {
                token_type: TokenType::Number,
                start,
                length: self.current - start,
                line: self.line,
            };
        }
        self.current = self.current + 1;
        if c == QUOTE {
            let ghost src = self.source@;
            let ghost i0 = self.current as int;
            let ghost l0 = self.line as int;
            let mut terminated = false;
            loop
                invariant_except_break
                    !terminated,
                    spec_string_scan(src, i0, l0) == spec_string_scan(
                        src,
                        self.current as int,
                        self.line as int,
                    ),
                invariant
                    self.wf(),
                    self.source@ == src,
                    start < self.current,
                ensures
                    self.wf(),
                    self.source@ == src,
                    start < self.current,
                    ({
                        let r = spec_string_scan(src, i0, l0);
                        self.current == r.0 && self.line == r.1 && terminated == r.2
                    }),
                decreases src.len() - self.current,
            {
                let m = self.source.len();
                if self.current >= m {
                    break;
                }
                let d = self.source[self.current];
                if d == QUOTE {
                    self.current = self.current + 1;
                    terminated = true;
                    break;
                }
                if d == NEWLINE {
                    self.line = self.line + 1;
                }
                self.current = self.current + 1;
            }
            return Token {
                token_type: if terminated {
                    TokenType::Str
                } else {
                    TokenType::Error
                },
                start,
                length: self.current - start,
                line: self.line,
            };
        }
        let tt: TokenType = if c == 40 {
            TokenType::LeftParen
        } else if c == 41 {
            TokenType::RightParen
        } else if c == 123 {
            TokenType::LeftBrace
        } else if c == 125 {
            TokenType::RightBrace
        } else if c == 44 {
            TokenType::Comma
        } else if c == DOT {
            TokenType::Dot
        } else if c == 45 {
            TokenType::Minus
        } else if c == 43 {
            TokenType::Plus
        } else if c == 59 {
            TokenType::Semicolon
        } else if c == SLASH {
            TokenType::Slash
        } else if c == 42 {
            TokenType::Star
        } else if c == 33 {
            if self.current < n && self.source[self.current] == EQUALS {
                self.current = self.current + 1;
                TokenType::BangEqual
            } else {
                TokenType::Bang
            }
        } else if c == EQUALS {
            if self.current < n && self.source[self.current] == EQUALS {
                self.current = self.current + 1;
                TokenType::EqualEqual
            } else {
                TokenType::Equal
            }
        } else if c == 60 {
            if self.current < n && self.source[self.current] == EQUALS {
                self.current = self.current + 1;
                TokenType::LessEqual
            } else {
                TokenType::Less
            }
        } else if c == 62 {
            if self.current < n && self.source[self.current] == EQUALS {
                self.current = self.current + 1;
                TokenType::GreaterEqual
            } else {
                TokenType::Greater
            }
        } else {
            TokenType::Error
        };
        Token { token_type: tt, start, length: self.current - start, line: self.line }
    }
}

/// Once the scanner answers `Eof` its cursor stands at the very end
/// of the source, and every further scan from there answers `Eof`
/// again, from the same position and with the same line: reaching
/// the end is absorbing.
pub proof fn lemma_eof_idempotent(src: Seq<u8>, i: int, line: int)
    requires
        0 <= i <= src.len(),
        spec_scan(src, i, line).token_type == TokenType::Eof,
    ensures
        spec_scan(src, i, line).end == src.len(),
        spec_scan(src, spec_scan(src, i, line).end, spec_scan(src, i, line).line) == (ScanResult {
            token_type: TokenType::Eof,
            start: src.len() as int,
            end: src.len() as int,
            line: spec_scan(src, i, line).line,
        }),
{
    lemma_skip_bounds(src, i, line, false);
}

/// Skipping whitespace never moves the cursor backwards or past the
/// end of the source.
pub proof fn lemma_skip_bounds(src: Seq<u8>, i: int, line: int, in_comment: bool)
    requires
        0 <= i <= src.len(),
    ensures
        i <= spec_skip(src, i, line, in_comment).0 <= src.len(),
    decreases src.len() - i,
{
    if i < src.len() {
        if in_comment {
            lemma_skip_bounds(src, i + 1, if src[i] == NEWLINE {
                line + 1
            } else {
                line
            }, src[i] != 10);
        } else if src[i] == SPACE || src[i] == TAB || src[i] == CARRIAGE_RETURN {
            lemma_skip_bounds(src, i + 1, line, false);
        } else if src[i] == NEWLINE {
            lemma_skip_bounds(src, i + 1, line + 1, false);
        } else if src[i] == SLASH && i + 1 < src.len() && src[i + 1] == SLASH {
            lemma_skip_bounds(src, i + 2, line, true);
        }
    }
}

} // verus!
