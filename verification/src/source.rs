//! Source files and positions within them. A collection owns every file of
//! a compilation; spans and locations address file contents by character
//! offset.

use vstd::prelude::*;

verus! {

/// A handle for one source file of a compilation: its index in the
/// collection.
#[derive(Debug, Clone, Copy, PartialEq, Eq, PartialOrd, Ord, Hash, Structural)]
pub struct SourceFileId(pub usize);

impl View for SourceFileId {
    type V = int;

    open spec fn view(&self) -> int {
        self.0 as int
    }
}

impl SourceFileId {
    /// Wrap an index.
    #[must_use]
    pub fn new(id: usize) -> (r: Self)
        ensures
            r@ == id,
    {
        Self(id)
    }

    /// The next id after this one.
    #[must_use]
    pub fn next_id(self) -> (r: Self)
        requires
            self@ < usize::MAX,
        ensures
            r@ == self@ + 1,
    {
        Self(self.0 + 1)
    }
}

/// A range of characters in a source file.
#[derive(Debug, Clone, Copy, PartialEq, Eq, Hash, Structural)]
pub struct SourceSpan {
    /// The file the span is in.
    pub file: SourceFileId,
    /// The start of the span, in characters.
    pub start: usize,
    /// The end of the span, in characters.
    pub end: usize,
}

impl SourceSpan {
    pub open spec fn spec_file(&self) -> SourceFileId {
        self.file
    }

    pub open spec fn spec_start(&self) -> int {
        self.start as int
    }

    pub open spec fn spec_end(&self) -> int {
        self.end as int
    }

    /// A span from `start` to `end`; the start must not lie after the end.
    #[must_use]
    pub fn new(file: SourceFileId, start: usize, end: usize) -> (r: Self)
        requires
            start <= end,
        ensures
            r.spec_file() == file,
            r.spec_start() == start,
            r.spec_end() == end,
    {
        Self { file, start, end }
    }

    /// The file the span is in.
    #[must_use]
    pub fn file(&self) -> (r: SourceFileId)
        ensures
            r == self.spec_file(),
    {
        self.file
    }

    /// The start of the span.
    #[must_use]
    pub fn start(&self) -> (r: usize)
        ensures
            r == self.spec_start(),
    {
        self.start
    }

    /// The end of the span.
    #[must_use]
    pub fn end(&self) -> (r: usize)
        ensures
            r == self.spec_end(),
    {
        self.end
    }

    /// The number of characters the span covers.
    #[must_use]
    pub fn len(&self) -> (r: usize)
        requires
            self.spec_start() <= self.spec_end(),
        ensures
            r == self.spec_end() - self.spec_start(),
    {
        self.end - self.start
    }

    /// Whether the span covers no characters.
    #[must_use]
    pub fn is_empty(&self) -> (r: bool)
        ensures
            r == (self.spec_start() == self.spec_end()),
    {
        self.start == self.end
    }

    /// The half-open offset range of the span.
    #[must_use]
    pub fn range(&self) -> (r: (usize, usize))
        ensures
            r.0 == self.spec_start(),
            r.1 == self.spec_end(),
    {
        (self.start, self.end)
    }

    /// The smallest span covering every span of a non-empty list; all must
    /// lie in the same file.
    #[must_use]
    pub fn merge(spans: &[Self]) -> (r: Self)
        requires
            spans@.len() > 0,
            forall|i: int|
                0 <= i < spans@.len() ==> (#[trigger] spans@[i]).spec_file() == spans@[0].spec_file(),
            forall|i: int|
                0 <= i < spans@.len() ==> (#[trigger] spans@[i]).spec_start() <= spans@[i].spec_end(),
        ensures
            r.spec_file() == spans@[0].spec_file(),
            forall|i: int|
                0 <= i < spans@.len() ==> r.spec_start() <= (#[trigger] spans@[i]).spec_start()
                    && spans@[i].spec_end() <= r.spec_end(),
            exists|i: int| 0 <= i < spans@.len() && r.spec_start() == (#[trigger] spans@[i]).spec_start(),
            exists|i: int| 0 <= i < spans@.len() && r.spec_end() == (#[trigger] spans@[i]).spec_end(),
    {
        let first = spans[0];
        let mut start = first.start;
        let mut end = first.end;
        let n = spans.len();
        let mut i: usize = 1;
        while i < n
            invariant
                n == spans@.len(),
                1 <= i <= n,
                forall|j: int|
                    0 <= j < i ==> start <= (#[trigger] spans@[j]).spec_start() && spans@[j].spec_end()
                        <= end,
                exists|j: int| 0 <= j < i && start == (#[trigger] spans@[j]).spec_start(),
                exists|j: int| 0 <= j < i && end == (#[trigger] spans@[j]).spec_end(),
                forall|j: int|
                    0 <= j < n ==> (#[trigger] spans@[j]).spec_start() <= spans@[j].spec_end(),
                start <= end,
            decreases n - i,
        {
            let s = spans[i];
            if s.start < start {
                start = s.start;
            }
            if s.end > end {
                end = s.end;
            }
            i += 1;
        }
        Self { file: first.file, start, end }
    }
}

/// A single position in a source file, in characters.
#[derive(Debug, Clone, Copy, PartialEq, Eq, Hash, Structural)]
pub struct SourceLocation {
    /// The file the location is in.
    pub file: SourceFileId,
    /// The character offset of the location.
    pub offset: usize,
}

impl SourceLocation {
    pub open spec fn spec_file(&self) -> SourceFileId {
        self.file
    }

    pub open spec fn spec_offset(&self) -> int {
        self.offset as int
    }

    #[must_use]
    pub fn new(file: SourceFileId, offset: usize) -> (r: Self)
        ensures
            r.spec_file() == file,
            r.spec_offset() == offset,
    {
        Self { file, offset }
    }

    /// The file the location is in.
    #[must_use]
    pub fn file(&self) -> (r: SourceFileId)
        ensures
            r == self.spec_file(),
    {
        self.file
    }

    /// The character offset of the location.
    #[must_use]
    pub fn offset(&self) -> (r: usize)
        ensures
            r == self.spec_offset(),
    {
        self.offset
    }

    /// The location `offset` characters further on.
    #[must_use]
    pub fn next_by(self, offset: usize) -> (r: Self)
        requires
            self.spec_offset() + offset <= usize::MAX,
        ensures
            r.spec_file() == self.spec_file(),
            r.spec_offset() == self.spec_offset() + offset,
    {
        Self { file: self.file, offset: self.offset + offset }
    }
}

/// One source file: its id, its name and its contents.
#[derive(Debug)]
pub struct SourceFile {
    /// The id of the file in its collection.
    pub id: SourceFileId,
    /// The name of the file.
    pub name: String,
    /// The text of the file.
    pub contents: String,
}

impl SourceFile {
    pub open spec fn spec_id(&self) -> SourceFileId {
        self.id
    }

    pub open spec fn spec_name(&self) -> Seq<char> {
        self.name@
    }

    pub open spec fn spec_contents(&self) -> Seq<char> {
        self.contents@
    }

    /// A file from its id, name and contents.
    #[must_use]
    pub fn new(id: SourceFileId, name: String, contents: String) -> (r: Self)
        ensures
            r.spec_id() == id,
            r.spec_name() == name@,
            r.spec_contents() == contents@,
    {
        Self { id, name, contents }
    }

    /// The id of the file.
    #[must_use]
    pub fn id(&self) -> (r: SourceFileId)
        ensures
            r == self.spec_id(),
    {
        self.id
    }

    /// The name of the file.
    #[must_use]
    pub fn name(&self) -> (r: &str)
        ensures
            r@ == self.spec_name(),
    {
        self.name.as_str()
    }

    /// The contents of the file.
    #[must_use]
    pub fn contents(&self) -> (r: &str)
        ensures
            r@ == self.spec_contents(),
    {
        self.contents.as_str()
    }

    /// A location at the start of the file.
    #[must_use]
    pub fn location_start(&self) -> (r: SourceLocation)
        ensures
            r.spec_file() == self.spec_id(),
            r.spec_offset() == 0,
    {
        SourceLocation::new(self.id, 0)
    }

    /// The text a span covers, if it lies within the contents.
    #[must_use]
    pub fn read_span(&self, span: SourceSpan) -> (r: Option<&str>)
        ensures
            match r {
                Some(s) => span.spec_start() <= span.spec_end() <= self.spec_contents().len()
                    && s@ == self.spec_contents().subrange(span.spec_start(), span.spec_end()),
                None => !(span.spec_start() <= span.spec_end() <= self.spec_contents().len()),
            },
    {
        let n = self.contents.as_str().unicode_len();
        if span.start <= span.end && span.end <= n {
            Some(self.contents.as_str().substring_char(span.start, span.end))
        } else {
            None
        }
    }

    /// The character at a location, if it lies within the contents.
    #[must_use]
    pub fn read_char(&self, location: SourceLocation) -> (r: Option<char>)
        ensures
            match r {
                Some(c) => location.spec_offset() < self.spec_contents().len() && c
                    == self.spec_contents()[location.spec_offset()],
                None => location.spec_offset() >= self.spec_contents().len(),
            },
    {
        let n = self.contents.as_str().unicode_len();
        if location.offset < n {
            Some(self.contents.as_str().get_char(location.offset))
        } else {
            None
        }
    }
}

/// All source files of a compilation, addressed by id.
#[derive(Debug)]
pub struct SourceFileCollection {
    /// The files, in the order they were added; a file's id is its index.
    pub files: Vec<SourceFile>,
}

impl SourceFileCollection {
    pub open spec fn spec_files(&self) -> Seq<SourceFile> {
        self.files@
    }

    pub open spec fn wf(&self) -> bool {
        forall|i: int|
            0 <= i < self.spec_files().len() ==> (#[trigger] self.spec_files()[i]).spec_id()@ == i
    }

    #[must_use]
    pub fn new() -> (r: Self)
        ensures
            r.wf(),
            r.spec_files().len() == 0,
    {
        Self { files: Vec::new() }
    }

    /// Add a file under a fresh id and return the id.
    pub fn add_file(&mut self, name: String, contents: String) -> (r: SourceFileId)
        requires
            old(self).wf(),
        ensures
            final(self).wf(),
            r@ == old(self).spec_files().len(),
            final(self).spec_files().len() == old(self).spec_files().len() + 1,
            forall|i: int|
                0 <= i < old(self).spec_files().len() ==> final(self).spec_files()[i] == old(self).spec_files()[i],
            final(self).spec_files().last().spec_name() == name@,
            final(self).spec_files().last().spec_contents() == contents@,
    {
        let id = SourceFileId(self.files.len());
        let file = SourceFile::new(id, name, contents);
        self.files.push(file);
        id
    }

    /// The file under an id, if any.
    #[must_use]
    pub fn get_file(&self, id: SourceFileId) -> (r: Option<&SourceFile>)
        ensures
            match r {
                Some(f) => 0 <= id@ < self.spec_files().len() && *f == self.spec_files()[id@],
                None => id@ >= self.spec_files().len(),
            },
    {
        if id.0 < self.files.len() {
            Some(&self.files[id.0])
        } else {
            None
        }
    }

    /// The name of the file under an id.
    #[must_use]
    pub fn get_file_name(&self, id: SourceFileId) -> (r: Option<&str>)
        ensures
            r matches Some(s) ==> 0 <= id@ < self.spec_files().len() && s@
                == self.spec_files()[id@].spec_name(),
    {
        match self.get_file(id) {
            Some(f) => Some(f.name()),
            None => None,
        }
    }

    /// The contents of the file under an id.
    #[must_use]
    pub fn get_file_contents(&self, id: SourceFileId) -> (r: Option<&str>)
        ensures
            r matches Some(s) ==> 0 <= id@ < self.spec_files().len() && s@
                == self.spec_files()[id@].spec_contents(),
    {
        match self.get_file(id) {
            Some(f) => Some(f.contents()),
            None => None,
        }
    }

    /// A location at the start of the file under an id.
    #[must_use]
    pub fn get_location_start(&self, id: SourceFileId) -> (r: Option<SourceLocation>)
        ensures
            r matches Some(l) ==> 0 <= id@ < self.spec_files().len() && l.spec_file()
                == self.spec_files()[id@].spec_id() && l.spec_offset() == 0,
    {
        match self.get_file(id) {
            Some(f) => Some(f.location_start()),
            None => None,
        }
    }

    /// The text a span covers in its file.
    #[must_use]
    pub fn read_span(&self, span: SourceSpan) -> (r: Option<&str>)
        ensures
            r matches Some(s) ==> 0 <= span.spec_file()@ < self.spec_files().len() && s@
                == self.spec_files()[span.spec_file()@].spec_contents().subrange(
                span.spec_start(),
                span.spec_end(),
            ),
    {
        match self.get_file(span.file()) {
            Some(f) => f.read_span(span),
            None => None,
        }
    }

    /// The character at a location in its file.
    #[must_use]
    pub fn read_char(&self, location: SourceLocation) -> (r: Option<char>)
        ensures
            r matches Some(c) ==> 0 <= location.spec_file()@ < self.spec_files().len() && c
                == self.spec_files()[location.spec_file()@].spec_contents()[location.spec_offset()],
    {
        match self.get_file(location.file()) {
            Some(f) => f.read_char(location),
            None => None,
        }
    }
}

} // verus!
