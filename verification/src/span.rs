//! Source positions for the abstract syntax tree: a location within a named
//! file, a span between two locations, and a value paired with its span.
//! Positions count characters; lines and columns are one-based.

use vstd::prelude::*;

verus! {

/// A position in a named source file.
#[derive(Debug, Clone, PartialEq, Eq)]
pub struct Location {
    /// The name of the file this location is in.
    pub file_name: String,
    /// The character offset of the location in the file.
    pub position: usize,
    /// The one-based line number.
    pub line: usize,
    /// The one-based column number.
    pub column: usize,
}

impl Location {
    pub open spec fn spec_position(&self) -> int {
        self.position as int
    }

    pub open spec fn spec_line(&self) -> int {
        self.line as int
    }

    pub open spec fn spec_column(&self) -> int {
        self.column as int
    }

    pub open spec fn spec_file_name(&self) -> Seq<char> {
        self.file_name@
    }

    /// The start of a file: position zero, line one, column one.
    #[must_use]
    pub fn new(file_name: String) -> (r: Self)
        ensures
            r.spec_file_name() == file_name@,
            r.spec_position() == 0,
            r.spec_line() == 1,
            r.spec_column() == 1,
    {
        Self { file_name, position: 0, line: 1, column: 1 }
    }

    /// A location at explicit coordinates.
    #[must_use]
    pub fn new_at(file_name: String, position: usize, line: usize, column: usize) -> (r: Self)
        ensures
            r.spec_file_name() == file_name@,
            r.spec_position() == position,
            r.spec_line() == line,
            r.spec_column() == column,
    {
        Self { file_name, position, line, column }
    }

    /// Step past one character: a newline starts the next line at column
    /// one, anything else advances the column. Counters saturate instead of
    /// wrapping.
    pub fn advance(&mut self, character: char)
        ensures
            final(self).spec_file_name() == old(self).spec_file_name(),
            final(self).spec_position() == if old(self).spec_position() < usize::MAX {
                old(self).spec_position() + 1
            } else {
                old(self).spec_position()
            },
            character == '\n' ==> final(self).spec_line() == (if old(self).spec_line()
                < usize::MAX {
                old(self).spec_line() + 1
            } else {
                old(self).spec_line()
            }) && final(self).spec_column() == 1,
            character != '\n' ==> final(self).spec_line() == old(self).spec_line() && final(self).spec_column() == (if old(self).spec_column() < usize::MAX {
                old(self).spec_column() + 1
            } else {
                old(self).spec_column()
            }),
    {
        if character == '\n' {
            if self.line < usize::MAX {
                self.line = self.line + 1;
            }
            self.column = 1;
        } else {
            if self.column < usize::MAX {
                self.column = self.column + 1;
            }
        }
        if self.position < usize::MAX {
            self.position = self.position + 1;
        }
    }

    /// The name of the file this location is in.
    #[must_use]
    pub fn file_name(&self) -> (r: &str)
        ensures
            r@ == self.spec_file_name(),
    {
        self.file_name.as_str()
    }

    /// The character offset in the file.
    #[must_use]
    pub fn position(&self) -> (r: usize)
        ensures
            r == self.spec_position(),
    {
        self.position
    }

    /// The one-based line number.
    #[must_use]
    pub fn line(&self) -> (r: usize)
        ensures
            r == self.spec_line(),
    {
        self.line
    }

    /// The one-based column number.
    #[must_use]
    pub fn column(&self) -> (r: usize)
        ensures
            r == self.spec_column(),
    {
        self.column
    }

    /// The half-open offset range from this location to another.
    #[must_use]
    pub fn range(&self, other: &Self) -> (r: (usize, usize))
        ensures
            r.0 == self.spec_position() && r.1 == other.spec_position(),
    {
        (self.position, other.position)
    }
}

/// A range of source text between two locations.
#[derive(Debug, Clone, PartialEq, Eq)]
pub struct Span {
    pub start: Location,
    pub end: Location,
}

impl Span {
    pub open spec fn spec_start(&self) -> Location {
        self.start
    }

    pub open spec fn spec_end(&self) -> Location {
        self.end
    }

    #[must_use]
    pub fn new(start: Location, end: Location) -> (r: Self)
        ensures
            r.spec_start() == start,
            r.spec_end() == end,
    {
        Self { start, end }
    }

    /// The name of the file the span is in.
    #[must_use]
    pub fn file_name(&self) -> (r: &str)
        ensures
            r@ == self.spec_start().spec_file_name(),
    {
        self.start.file_name()
    }

    /// The half-open offset range the span covers.
    #[must_use]
    pub fn range(&self) -> (r: (usize, usize))
        ensures
            r.0 == self.spec_start().spec_position() && r.1 == self.spec_end().spec_position(),
    {
        self.start.range(&self.end)
    }

    /// The starting location.
    #[must_use]
    pub fn start(&self) -> (r: &Location)
        ensures
            *r == self.spec_start(),
    {
        &self.start
    }

    /// The ending location.
    #[must_use]
    pub fn end(&self) -> (r: &Location)
        ensures
            *r == self.spec_end(),
    {
        &self.end
    }

    /// The line the span starts on.
    #[must_use]
    pub fn line(&self) -> (r: usize)
        ensures
            r == self.spec_start().spec_line(),
    {
        self.start.line()
    }

    /// The column the span starts at.
    #[must_use]
    pub fn column(&self) -> (r: usize)
        ensures
            r == self.spec_start().spec_column(),
    {
        self.start.column()
    }
}

/// A value paired with the span of source text it came from.
#[derive(Debug, Clone, PartialEq, Eq)]
pub struct Spanned<T> {
    pub span: Span,
    pub data: T,
}

impl<T> Spanned<T> {
    pub open spec fn spec_span(&self) -> Span {
        self.span
    }

    pub open spec fn spec_data(&self) -> T {
        self.data
    }

    #[must_use]
    pub fn new(span: Span, data: T) -> (r: Self)
        ensures
            r.spec_span() == span,
            r.spec_data() == data,
    {
        Self { span, data }
    }

    /// A value spanning from one location to another.
    #[must_use]
    pub fn spanning(start: Location, end: Location, data: T) -> (r: Self)
        ensures
            r.spec_span().spec_start() == start,
            r.spec_span().spec_end() == end,
            r.spec_data() == data,
    {
        Self::new(Span::new(start, end), data)
    }

    /// A value spanning from the start of one span to the end of another.
    #[must_use]
    pub fn join_spans(start: Span, end: Span, data: T) -> (r: Self)
        ensures
            r.spec_span().spec_start() == start.spec_start(),
            r.spec_span().spec_end() == end.spec_end(),
            r.spec_data() == data,
    {
        Self::new(Span::new(start.start, end.end), data)
    }

    /// The starting location.
    #[must_use]
    pub fn start(&self) -> (r: &Location)
        ensures
            *r == self.spec_span().spec_start(),
    {
        self.span.start()
    }

    /// The ending location.
    #[must_use]
    pub fn end(&self) -> (r: &Location)
        ensures
            *r == self.spec_span().spec_end(),
    {
        self.span.end()
    }

    /// The wrapped value.
    #[must_use]
    pub fn data(&self) -> (r: &T)
        ensures
            *r == self.spec_data(),
    {
        &self.data
    }

    /// The span of the value.
    #[must_use]
    pub fn span(&self) -> (r: &Span)
        ensures
            *r == self.spec_span(),
    {
        &self.span
    }

    /// The half-open offset range the value covers.
    #[must_use]
    pub fn range(&self) -> (r: (usize, usize))
        ensures
            r.0 == self.spec_span().spec_start().spec_position() && r.1
                == self.spec_span().spec_end().spec_position(),
    {
        self.span.range()
    }

    /// The line the value starts on.
    #[must_use]
    pub fn line(&self) -> (r: usize)
        ensures
            r == self.spec_span().spec_start().spec_line(),
    {
        self.span.line()
    }

    /// The column the value starts at.
    #[must_use]
    pub fn column(&self) -> (r: usize)
        ensures
            r == self.spec_span().spec_start().spec_column(),
    {
        self.span.column()
    }

    /// The name of the file the value came from.
    #[must_use]
    pub fn file_name(&self) -> (r: &str)
        ensures
            r@ == self.spec_span().spec_start().spec_file_name(),
    {
        self.span.file_name()
    }
}

} // verus!
