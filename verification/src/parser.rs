//! The resilient parser: parsing functions emit a flat stream of events —
//! open a tree, add a token, close the tree — and `finish` folds the
//! events into a concrete syntax tree. Malformed input produces `Error`
//! trees instead of stopping the parse.

mod expressions;
mod identifiers;
mod items;
mod parameters;
mod paths;
mod statements;
mod types;
mod whitespace;

pub use crate::parser::expressions::{block, expression};
pub use crate::parser::expressions::{consume_infix_op, infix_op, infix_op_bp};
pub use crate::parser::expressions::{consume_postfix_op, postfix_op, postfix_op_bp};
pub use crate::parser::expressions::{consume_prefix_op, prefix_op, prefix_op_bp};
pub use crate::parser::expressions::{numeric_literal, primary};
pub use crate::parser::identifiers::identifier;
pub use crate::parser::items::{file, function};
pub use crate::parser::parameters::parameter_list;
pub use crate::parser::paths::{path, path_segment};
pub use crate::parser::statements::statement;
pub use crate::parser::types::ty;
pub use crate::parser::whitespace::skip_whitespace;

use vstd::prelude::*;

use crate::lexer::Lexer;
use crate::source::{SourceFile, SourceFileId, SourceLocation, SourceSpan};
use crate::syntax::{SyntaxKind, SyntaxNode, SyntaxToken, SyntaxTree};

verus! {

/// One event of the parse: open a tree, close the innermost open tree, or
/// add a terminal token to it.
#[derive(Debug, Clone, Copy, PartialEq, Eq, Structural)]
pub enum ParserEvent {
    /// Open a tree of the given kind at a location.
    Open { kind: SyntaxKind, start: SourceLocation },
    /// Close the innermost open tree, extending its span to `end`.
    Close { end: SourceLocation },
    /// Add a terminal token to the innermost open tree.
    Token { kind: SyntaxKind, span: SourceSpan },
}

/// A handle to an open event, used to close or adjust it later.
#[derive(Debug, Clone, Copy, PartialEq, Eq, Structural)]
pub struct MarkOpened {
    pub index: usize,
}

/// A handle to a closed event, used to wrap a finished tree in a new
/// parent.
#[derive(Debug, Clone, Copy, PartialEq, Eq, Structural)]
pub struct MarkClosed {
    pub open_index: usize,
}

/// The parser state: the lexer it draws tokens from, the event stream
/// built so far, and a step budget that bounds the whole parse.
#[derive(Debug)]
pub struct Parser<'file> {
    /// The lexer over the file being parsed.
    pub lexer: Lexer<'file>,
    /// The file being parsed.
    pub source: &'file SourceFile,
    /// The events emitted so far.
    pub events: Vec<ParserEvent>,
    /// The remaining step budget; every parsing step spends from it, so
    /// the parse always ends.
    pub fuel: u64,
}

/// The step budget a fresh parser starts with; enough for any input that
/// fits in memory.
pub(crate) const PARSER_STEP_LIMIT: u64 = 0xffff_ffff_ffff;

impl<'file> Parser<'file> {
    pub open spec fn wf(&self) -> bool {
        &&& self.lexer.wf()
        &&& self.lexer.file == self.source
    }

    /// A parser over the file a lexer reads from.
    #[must_use]
    pub fn new(lexer: Lexer<'file>) -> (r: Self)
        requires
            lexer.wf(),
        ensures
            r.wf(),
    {
        let source = lexer.source();
        Self { lexer, source, events: Vec::new(), fuel: PARSER_STEP_LIMIT }
    }

    /// The text a span covers in the file being parsed.
    #[must_use]
    pub fn get_span_str(&self, span: &SourceSpan) -> (r: Option<&str>)
        ensures
            r matches Some(s) ==> s@ == self.source.spec_contents().subrange(
                span.spec_start(),
                span.spec_end(),
            ),
    {
        self.source.read_span(*span)
    }

    /// Parse the whole file into the event stream.
    pub fn parse(&mut self)
        requires
            old(self).wf(),
        ensures
            final(self).wf(),
    {
        let _ = items::file(self);
    }

    /// Fold the event stream into a syntax tree. Events always come out of
    /// the parsing functions balanced; should the stream nevertheless be
    /// unbalanced, the fold still produces a tree, attaching whatever
    /// remains open and dropping tokens outside any tree.
    #[must_use]
    pub fn finish(self) -> (r: SyntaxTree) {
        let mut stack: Vec<SyntaxTree> = Vec::new();
        let n = self.events.len();
        let mut i: usize = 0;
        while i < n
            invariant
                n == self.events@.len(),
                i <= n,
            decreases n - i,
        {
            let event = self.events[i];
            match event {
                ParserEvent::Open { kind, start } => {
                    let span = SourceSpan::new(start.file(), start.offset(), start.offset());
                    stack.push(SyntaxTree::new(kind, span));
                },
                ParserEvent::Close { end } => {
                    match stack.pop() {
                        Some(mut tree) => {
                            tree.extend_span(end);
                            match stack.pop() {
                                Some(mut parent) => {
                                    parent.add_child(SyntaxNode::Tree(tree));
                                    stack.push(parent);
                                },
                                None => {
                                    return tree;
                                },
                            }
                        },
                        None => {},
                    }
                },
                ParserEvent::Token { kind, span } => {
                    let token = SyntaxToken::new(kind, span);
                    match stack.pop() {
                        Some(mut parent) => {
                            parent.add_child(SyntaxNode::Token(token));
                            stack.push(parent);
                        },
                        None => {},
                    }
                },
            }
            i += 1;
        }
        // fold anything left open into its parent
        loop
            decreases stack@.len(),
        {
            let top = match stack.pop() {
                Some(t) => t,
                None => {
                    break ;
                },
            };
            match stack.pop() {
                Some(mut parent) => {
                    parent.add_child(SyntaxNode::Tree(top));
                    stack.push(parent);
                },
                None => {
                    return top;
                },
            }
        }
        SyntaxTree::new(SyntaxKind::Error, SourceSpan::new(SourceFileId::new(0), 0, 0))
    }

    /// Open a new tree of the given kind at the current position.
    #[must_use]
    pub fn open(&mut self, kind: SyntaxKind) -> (r: MarkOpened)
        requires
            old(self).wf(),
        ensures
            final(self).wf(),
            final(self).fuel == old(self).fuel,
            final(self).source == old(self).source,
            final(self).lexer == old(self).lexer,
    {
        let start = self.lexer.location();
        self.events.push(ParserEvent::Open { kind, start });
        MarkOpened { index: self.events.len() - 1 }
    }

    /// Open a new tree before an already-closed one, wrapping it.
    pub fn open_before(&mut self, close: MarkClosed, kind: SyntaxKind) -> (r: MarkOpened)
        requires
            old(self).wf(),
        ensures
            final(self).wf(),
            final(self).fuel == old(self).fuel,
            final(self).source == old(self).source,
            final(self).lexer == old(self).lexer,
    {
        if close.open_index < self.events.len() {
            let start = match self.events[close.open_index] {
                ParserEvent::Open { kind: _, start } => Some(start),
                _ => None,
            };
            match start {
                Some(start) => {
                    self.events.insert(close.open_index, ParserEvent::Open { kind, start });
                    MarkOpened { index: close.open_index }
                },
                None => {
                    // not an open event: fall back to opening here
                    self.open(kind)
                },
            }
        } else {
            self.open(kind)
        }
    }

    /// Change the kind of an opened tree.
    pub fn adjust(&mut self, mark: MarkOpened, updated_kind: SyntaxKind)
        requires
            old(self).wf(),
        ensures
            final(self).wf(),
            final(self).fuel == old(self).fuel,
            final(self).source == old(self).source,
            final(self).lexer == old(self).lexer,
    {
        if mark.index < self.events.len() {
            let updated = match self.events[mark.index] {
                ParserEvent::Open { kind: _, start } => Some(
                    ParserEvent::Open { kind: updated_kind, start },
                ),
                _ => None,
            };
            match updated {
                Some(event) => {
                    self.events[mark.index] = event;
                },
                None => {},
            }
        }
    }

    /// Add a terminal token to the innermost open tree.
    pub fn token(&mut self, token: SyntaxToken) -> (r: MarkClosed)
        requires
            old(self).wf(),
        ensures
            final(self).wf(),
            final(self).fuel == old(self).fuel,
            final(self).source == old(self).source,
            final(self).lexer == old(self).lexer,
    {
        self.events.push(ParserEvent::Token { kind: token.kind(), span: token.span() });
        MarkClosed { open_index: self.events.len() - 1 }
    }

    /// Close the innermost open tree.
    #[must_use]
    pub fn close(&mut self, mark: MarkOpened) -> (r: MarkClosed)
        requires
            old(self).wf(),
        ensures
            final(self).wf(),
            final(self).fuel == old(self).fuel,
            final(self).source == old(self).source,
            final(self).lexer == old(self).lexer,
    {
        let end = self.lexer.location();
        self.events.push(ParserEvent::Close { end });
        MarkClosed { open_index: mark.index }
    }

    /// Mark an opened tree as an error and close it. The message names
    /// what was expected; it is part of the call shape for diagnostics.
    pub fn error(&mut self, mark: MarkOpened, message: &str) -> (r: MarkClosed)
        requires
            old(self).wf(),
        ensures
            final(self).wf(),
            final(self).fuel == old(self).fuel,
            final(self).source == old(self).source,
            final(self).lexer == old(self).lexer,
    {
        let _ = message;
        self.adjust(mark, SyntaxKind::Error);
        self.close(mark)
    }

    /// Look `n` tokens ahead without consuming anything.
    #[must_use]
    pub fn peek(&self, n: usize) -> (r: Option<SyntaxToken>)
        requires
            self.wf(),
            n >= 1,
        ensures
            r matches Some(t) ==> {
                &&& t.spec_span().spec_file() == self.source.spec_id()
                &&& t.spec_span().spec_start() < t.spec_span().spec_end()
                    <= self.source.spec_contents().len()
            },
    {
        self.lexer.peek_token(n)
    }

    /// Consume the next token and add it to the innermost open tree.
    #[must_use]
    pub fn consume(&mut self) -> (r: Option<SyntaxToken>)
        requires
            old(self).wf(),
        ensures
            final(self).wf(),
            final(self).fuel == old(self).fuel,
            final(self).source == old(self).source,
            r is Some ==> old(self).lexer.location.spec_offset() < final(self).lexer.location.spec_offset(),
            r is None ==> final(self).lexer == old(self).lexer,
    {
        let token = match self.lexer.next_token() {
            Some(t) => t,
            None => {
                return None;
            },
        };
        let _ = self.token(token);
        Some(token)
    }

    /// Consume the next token without adding it to the tree.
    pub fn advance(&mut self) -> (r: Option<SyntaxToken>)
        requires
            old(self).wf(),
        ensures
            final(self).wf(),
            final(self).fuel == old(self).fuel,
            final(self).source == old(self).source,
            r is Some ==> old(self).lexer.location.spec_offset() < final(self).lexer.location.spec_offset(),
            r is None ==> final(self).lexer == old(self).lexer,
            r matches Some(t) ==> t.spec_span().spec_file() == old(self).source.spec_id()
                && t.spec_span().spec_start() < t.spec_span().spec_end(),
    {
        self.lexer.next_token()
    }

    /// Whether the whole file has been consumed.
    #[must_use]
    pub fn at_end(&self) -> (r: bool)
        requires
            self.wf(),
    {
        match self.peek(1) {
            Some(_) => false,
            None => true,
        }
    }

    /// Whether the next token has the given kind.
    #[must_use]
    pub fn is_at(&self, kind: SyntaxKind) -> (r: bool)
        requires
            self.wf(),
    {
        match self.peek(1) {
            Some(t) => t.kind() == kind,
            None => false,
        }
    }

    /// Whether the next token has any of the given kinds.
    #[must_use]
    pub fn is_at_any(&self, kinds: &[SyntaxKind]) -> (r: bool)
        requires
            self.wf(),
    {
        let t = match self.peek(1) {
            Some(t) => t,
            None => {
                return false;
            },
        };
        let n = kinds.len();
        let mut i: usize = 0;
        while i < n
            invariant
                n == kinds@.len(),
                i <= n,
            decreases n - i,
        {
            if t.kind() == kinds[i] {
                return true;
            }
            i += 1;
        }
        false
    }

    /// Consume the next token if it has the given kind.
    #[must_use]
    pub fn consume_if(&mut self, kind: SyntaxKind) -> (r: Option<SyntaxToken>)
        requires
            old(self).wf(),
        ensures
            final(self).wf(),
            final(self).fuel == old(self).fuel,
            final(self).source == old(self).source,
            r is Some ==> old(self).lexer.location.spec_offset() < final(self).lexer.location.spec_offset(),
    {
        if self.is_at(kind) {
            self.consume()
        } else {
            None
        }
    }

    /// Consume the next token if it has any of the given kinds.
    #[must_use]
    pub fn consume_if_any(&mut self, kinds: &[SyntaxKind]) -> (r: Option<SyntaxToken>)
        requires
            old(self).wf(),
        ensures
            final(self).wf(),
            final(self).fuel == old(self).fuel,
            final(self).source == old(self).source,
            r is Some ==> old(self).lexer.location.spec_offset() < final(self).lexer.location.spec_offset(),
    {
        if self.is_at_any(kinds) {
            self.consume()
        } else {
            None
        }
    }

    /// Consume tokens of one kind for as long as they come, without adding
    /// them to the tree, and return them.
    pub fn advance_while_kind(&mut self, kind: SyntaxKind) -> (r: Vec<SyntaxToken>)
        requires
            old(self).wf(),
        ensures
            final(self).wf(),
            final(self).fuel == old(self).fuel,
            final(self).source == old(self).source,
            forall|k: int|
                0 <= k < r@.len() ==> {
                    &&& (#[trigger] r@[k]).spec_span().spec_file() == old(self).source.spec_id()
                    &&& r@[k].spec_span().spec_start() < r@[k].spec_span().spec_end()
                },
    {
        let mut tokens: Vec<SyntaxToken> = Vec::new();
        loop
            invariant
                self.wf(),
                self.fuel == old(self).fuel,
                self.source == old(self).source,
                self.lexer.file == old(self).lexer.file,
                forall|k: int|
                    0 <= k < tokens@.len() ==> {
                        &&& (#[trigger] tokens@[k]).spec_span().spec_file() == old(self).source.spec_id()
                        &&& tokens@[k].spec_span().spec_start() < tokens@[k].spec_span().spec_end()
                    },
            decreases self.source.spec_contents().len() - self.lexer.location.spec_offset(),
        {
            let next = self.peek(1);
            match next {
                Some(t) => {
                    if t.kind() == kind {
                        match self.advance() {
                            Some(t2) => {
                                tokens.push(t2);
                            },
                            None => {
                                break ;
                            },
                        }
                    } else {
                        break ;
                    }
                },
                None => {
                    break ;
                },
            }
        }
        tokens
    }
}

} // verus!
