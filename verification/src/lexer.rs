//! The lexer: classifies the characters of a source file into syntax
//! tokens, one `next_token` call at a time. Single characters map directly
//! to their kinds; runs of identifier characters become identifiers or
//! keywords; every token covers at least one character, so lexing always
//! advances.

use vstd::prelude::*;

use crate::hlir::variable_scope::str_eq;
use crate::source::{SourceFile, SourceLocation, SourceSpan};
use crate::syntax::{SyntaxKind, SyntaxToken};

verus! {

/// The lexer over one source file: the file and the position of the next
/// character to classify.
#[derive(Debug)]
pub struct Lexer<'file> {
    /// The file being lexed.
    pub file: &'file SourceFile,
    /// The position of the next token.
    pub location: SourceLocation,
}

impl<'file> Lexer<'file> {
    /// Positions never leave the file: the location stays within the
    /// contents (one past the end at most) and in the file's id space.
    pub open spec fn wf(&self) -> bool {
        &&& self.location.spec_offset() <= self.file.spec_contents().len()
        &&& self.location.spec_file() == self.file.spec_id()
    }

    /// A lexer at the start of a file.
    #[must_use]
    pub fn new(file: &'file SourceFile) -> (r: Self)
        ensures
            r.wf(),
            r.file == file,
            r.location.spec_offset() == 0,
    {
        Self { file, location: file.location_start() }
    }

    /// The file being lexed.
    #[must_use]
    pub fn source(&self) -> (r: &'file SourceFile)
        ensures
            r == self.file,
    {
        self.file
    }

    /// The current position.
    #[must_use]
    pub fn location(&self) -> (r: SourceLocation)
        ensures
            r == self.location,
    {
        self.location
    }

    /// Classify and consume the next token; `None` at the end of the file.
    /// A returned token starts at the old position, ends at the new one,
    /// and covers at least one character: lexing always advances.
    #[must_use]
    pub fn next_token(&mut self) -> (r: Option<SyntaxToken>)
        requires
            old(self).wf(),
        ensures
            final(self).wf(),
            final(self).file == old(self).file,
            r is None <==> old(self).location.spec_offset() == old(self).file.spec_contents().len(),
            r is None ==> final(self).location == old(self).location,
            r matches Some(t) ==> {
                &&& t.spec_span().spec_file() == old(self).file.spec_id()
                &&& t.spec_span().spec_start() == old(self).location.spec_offset()
                &&& t.spec_span().spec_end() == final(self).location.spec_offset()
                &&& old(self).location.spec_offset() < final(self).location.spec_offset()
                    <= old(self).file.spec_contents().len()
                &&& (!spec_ident_start(
                    old(self).file.spec_contents()[old(self).location.spec_offset()],
                ) ==> (t.spec_kind() == spec_char_kind(
                    old(self).file.spec_contents()[old(self).location.spec_offset()],
                ) && final(self).location.spec_offset() == old(self).location.spec_offset() + 1))
                &&& (spec_ident_start(
                    old(self).file.spec_contents()[old(self).location.spec_offset()],
                ) ==> t.spec_kind() == spec_word_kind(
                    old(self).file.spec_contents().subrange(
                        t.spec_span().spec_start(),
                        t.spec_span().spec_end(),
                    ),
                ))
            },
    {
        let start = self.location;
        match self.characters_to_token(start) {
            Some((kind, end)) => {
                self.location = end;
                Some(
                    SyntaxToken::new(
                        kind,
                        SourceSpan::new(self.file.id(), start.offset(), end.offset()),
                    ),
                )
            },
            None => None,
        }
    }

    /// Look `n` tokens ahead (`n` counted from one) without consuming
    /// anything.
    #[must_use]
    pub fn peek_token(&self, n: usize) -> (r: Option<SyntaxToken>)
        requires
            self.wf(),
            n >= 1,
        ensures
            r matches Some(t) ==> {
                &&& t.spec_span().spec_file() == self.file.spec_id()
                &&& self.location.spec_offset() <= t.spec_span().spec_start() < t.spec_span().spec_end()
                    <= self.file.spec_contents().len()
            },
    {
        let mut start = self.location;
        let mut remaining = n;
        loop
            invariant
                self.wf(),
                remaining >= 1,
                start.spec_file() == self.file.spec_id(),
                self.location.spec_offset() <= start.spec_offset() <= self.file.spec_contents().len(),
            decreases remaining,
        {
            remaining = remaining - 1;
            let step = self.characters_to_token(start);
            match step {
                Some((kind, end)) => {
                    if remaining == 0 {
                        return Some(
                            SyntaxToken::new(
                                kind,
                                SourceSpan::new(self.file.id(), start.offset(), end.offset()),
                            ),
                        );
                    }
                    start = end;
                },
                None => {
                    return None;
                },
            }
        }
    }

    /// Classify the characters at `start` into one token; `None` at the
    /// end of the contents.
    fn characters_to_token(&self, start: SourceLocation) -> (r: Option<(SyntaxKind, SourceLocation)>)
        requires
            self.wf(),
            start.spec_file() == self.file.spec_id(),
            start.spec_offset() <= self.file.spec_contents().len(),
        ensures
            r is None <==> start.spec_offset() == self.file.spec_contents().len(),
            r matches Some((kind, end)) ==> {
                &&& end.spec_file() == start.spec_file()
                &&& start.spec_offset() < end.spec_offset() <= self.file.spec_contents().len()
                // a character that starts no identifier run is one token
                // of its own kind; an identifier run is an identifier or a
                // keyword
                &&& (!spec_ident_start(self.file.spec_contents()[start.spec_offset()]) ==> (kind
                    == spec_char_kind(self.file.spec_contents()[start.spec_offset()]) && end.spec_offset() == start.spec_offset() + 1))
                &&& (spec_ident_start(self.file.spec_contents()[start.spec_offset()])
                    ==> kind == spec_word_kind(
                    self.file.spec_contents().subrange(start.spec_offset(), end.spec_offset()),
                ))
            },
    {
        let n_total = self.file.contents().unicode_len();
        let mut current = start;
        let c = match self.file.read_char(current) {
            Some(c) => c,
            None => {
                return None;
            },
        };
        proof {
            assert(current.spec_offset() < n_total <= usize::MAX);
        }
        current = current.next_by(1);
        let kind = if c == '(' {
            SyntaxKind::LParen
        } else if c == ')' {
            SyntaxKind::RParen
        } else if c == '{' {
            SyntaxKind::LBrace
        } else if c == '}' {
            SyntaxKind::RBrace
        } else if c == '[' {
            SyntaxKind::LBracket
        } else if c == ']' {
            SyntaxKind::RBracket
        } else if c == '<' {
            SyntaxKind::LAngle
        } else if c == '>' {
            SyntaxKind::RAngle
        } else if c == ',' {
            SyntaxKind::Comma
        } else if c == ':' {
            SyntaxKind::Colon
        } else if c == ';' {
            SyntaxKind::Semicolon
        } else if c == '.' {
            SyntaxKind::Dot
        } else if c == '&' {
            SyntaxKind::Ampersand
        } else if c == '|' {
            SyntaxKind::Pipe
        } else if c == '^' {
            SyntaxKind::Caret
        } else if c == '+' {
            SyntaxKind::Plus
        } else if c == '-' {
            SyntaxKind::Minus
        } else if c == '*' {
            SyntaxKind::Star
        } else if c == '/' {
            SyntaxKind::Slash
        } else if c == '\\' {
            SyntaxKind::Backslash
        } else if c == '%' {
            SyntaxKind::Percent
        } else if c == '=' {
            SyntaxKind::Equals
        } else if c == '!' {
            SyntaxKind::Bang
        } else if c == '~' {
            SyntaxKind::Tilde
        } else if c == '?' {
            SyntaxKind::Question
        } else if c == '@' {
            SyntaxKind::At
        } else if is_digit(c) {
            SyntaxKind::Digit
        } else if is_identifier_start(c) {
            // scan the full identifier run, then decide keyword or name
            let n = n_total;
            while current.offset() < n
                invariant
                    self.wf(),
                    n == self.file.spec_contents().len(),
                    current.spec_file() == self.file.spec_id(),
                    start.spec_offset() < current.spec_offset() <= n,
                decreases n - current.spec_offset(),
            {
                let next = match self.file.read_char(current) {
                    Some(c2) => c2,
                    None => {
                        break ;
                    },
                };
                if is_identifier_continue(next) {
                    current = current.next_by(1);
                } else {
                    break ;
                }
            }
            let span = SourceSpan::new(self.file.id(), start.offset(), current.offset());
            match self.file.read_span(span) {
                Some(text) => {
                    if str_eq(text, "fn") {
                        SyntaxKind::Fn
                    } else if str_eq(text, "let") {
                        SyntaxKind::Let
                    } else if str_eq(text, "return") {
                        SyntaxKind::Return
                    } else if str_eq(text, "if") {
                        SyntaxKind::If
                    } else if str_eq(text, "else") {
                        SyntaxKind::Else
                    } else if str_eq(text, "true") {
                        SyntaxKind::True
                    } else if str_eq(text, "false") {
                        SyntaxKind::False
                    } else {
                        SyntaxKind::Identifier
                    }
                },
                None => SyntaxKind::Identifier,
            }
        } else if is_whitespace(c) {
            SyntaxKind::Whitespace
        } else {
            SyntaxKind::Other
        };
        Some((kind, current))
    }
}

/// The token kind a single character lexes to when it does not start an
/// identifier run: the punctuation kinds, digits, whitespace, or `Other`.
pub open spec fn spec_char_kind(c: char) -> SyntaxKind {
    if c == '(' { SyntaxKind::LParen }
    else if c == ')' { SyntaxKind::RParen }
    else if c == '{' { SyntaxKind::LBrace }
    else if c == '}' { SyntaxKind::RBrace }
    else if c == '[' { SyntaxKind::LBracket }
    else if c == ']' { SyntaxKind::RBracket }
    else if c == '<' { SyntaxKind::LAngle }
    else if c == '>' { SyntaxKind::RAngle }
    else if c == ',' { SyntaxKind::Comma }
    else if c == ':' { SyntaxKind::Colon }
    else if c == ';' { SyntaxKind::Semicolon }
    else if c == '.' { SyntaxKind::Dot }
    else if c == '&' { SyntaxKind::Ampersand }
    else if c == '|' { SyntaxKind::Pipe }
    else if c == '^' { SyntaxKind::Caret }
    else if c == '+' { SyntaxKind::Plus }
    else if c == '-' { SyntaxKind::Minus }
    else if c == '*' { SyntaxKind::Star }
    else if c == '/' { SyntaxKind::Slash }
    else if c == '\\' { SyntaxKind::Backslash }
    else if c == '%' { SyntaxKind::Percent }
    else if c == '=' { SyntaxKind::Equals }
    else if c == '!' { SyntaxKind::Bang }
    else if c == '~' { SyntaxKind::Tilde }
    else if c == '?' { SyntaxKind::Question }
    else if c == '@' { SyntaxKind::At }
    else if '0' <= c <= '9' { SyntaxKind::Digit }
    else if c == ' ' || c == '\t' || c == '\n' || c == '\r' { SyntaxKind::Whitespace }
    else { SyntaxKind::Other }
}

/// Whether a character may start an identifier run.
pub open spec fn spec_ident_start(c: char) -> bool {
    c == '_' || 'a' <= c <= 'z' || 'A' <= c <= 'Z'
}

/// The kind an identifier run of the given text lexes to: the matching
/// keyword, or a plain identifier.
pub open spec fn spec_word_kind(w: Seq<char>) -> SyntaxKind {
    if w == "fn"@ {
        SyntaxKind::Fn
    } else if w == "let"@ {
        SyntaxKind::Let
    } else if w == "return"@ {
        SyntaxKind::Return
    } else if w == "if"@ {
        SyntaxKind::If
    } else if w == "else"@ {
        SyntaxKind::Else
    } else if w == "true"@ {
        SyntaxKind::True
    } else if w == "false"@ {
        SyntaxKind::False
    } else {
        SyntaxKind::Identifier
    }
}

/// Whether a character is a decimal digit.
pub fn is_digit(c: char) -> (r: bool)
    ensures
        r == ('0' <= c <= '9'),
{
    '0' <= c && c <= '9'
}

/// Whether a character may start an identifier.
pub fn is_identifier_start(c: char) -> (r: bool)
    ensures
        r == (c == '_' || 'a' <= c <= 'z' || 'A' <= c <= 'Z'),
{
    c == '_' || ('a' <= c && c <= 'z') || ('A' <= c && c <= 'Z')
}

/// Whether a character may continue an identifier.
pub fn is_identifier_continue(c: char) -> (r: bool)
    ensures
        r == (c == '_' || 'a' <= c <= 'z' || 'A' <= c <= 'Z' || '0' <= c <= '9'),
{
    is_identifier_start(c) || is_digit(c)
}

/// Whether a character is whitespace: space, tab, newline or carriage
/// return.
pub fn is_whitespace(c: char) -> (r: bool)
    ensures
        r == (c == ' ' || c == '\t' || c == '\n' || c == '\r'),
{
    c == ' ' || c == '\t' || c == '\n' || c == '\r'
}

} // verus!
