//! The concrete syntax tree the parser produces: tokens classified by
//! kind, trees of nodes, and a pretty printer that renders a tree with the
//! source text of its tokens.

use vstd::prelude::*;

use crate::source::{SourceFileCollection, SourceLocation, SourceSpan};
use crate::text::{push_char, usize_to_string};

verus! {

/// The different kinds of syntax tokens and trees.
#[derive(Debug, Clone, Copy, PartialEq, Eq, PartialOrd, Ord, Hash, Structural)]
pub enum SyntaxKind {
    /// An error tree or token.
    Error,
    /// `(`
    LParen,
    /// `)`
    RParen,
    /// `{`
    LBrace,
    /// `}`
    RBrace,
    /// `[`
    LBracket,
    /// `]`
    RBracket,
    /// `<`
    LAngle,
    /// `>`
    RAngle,
    /// `,`
    Comma,
    /// `:`
    Colon,
    /// `;`
    Semicolon,
    /// `.`
    Dot,
    /// `&`
    Ampersand,
    /// `|`
    Pipe,
    /// `^`
    Caret,
    /// `+`
    Plus,
    /// `-`
    Minus,
    /// `*`
    Star,
    /// `/`
    Slash,
    /// `\`
    Backslash,
    /// `%`
    Percent,
    /// `=`
    Equals,
    /// `!`
    Bang,
    /// `~`
    Tilde,
    /// `?`
    Question,
    /// `@`
    At,
    /// `"`
    DoubleQuote,
    /// `'`
    SingleQuote,
    /// A decimal digit.
    Digit,
    /// A letter.
    Letter,
    /// `_`
    Underscore,
    /// Any whitespace character.
    Whitespace,
    /// Any other character.
    Other,
    /// `<<`
    ShiftLeft,
    /// `>>`
    ShiftRight,
    /// `==`
    Equality,
    /// `!=`
    Inequality,
    /// `<=`
    LessThanOrEqual,
    /// `>=`
    GreaterThanOrEqual,
    /// `&&`
    And,
    /// `||`
    Or,
    /// `.*`
    Deref,
    /// `.&`
    Ref,
    /// `::`
    PathSeparator,
    /// `..`
    DoubleDot,
    /// `...`
    TripleDot,
    /// An identifier.
    Identifier,
    /// `fn`
    Fn,
    /// `let`
    Let,
    /// `return`
    Return,
    /// `if`
    If,
    /// `else`
    Else,
    /// `true`
    True,
    /// `false`
    False,
    /// The root of a parsed file.
    File,
    /// A function definition.
    Function,
    /// A parameter list.
    ParameterList,
    /// A parameter.
    Parameter,
    /// The `...` marker of a variadic function.
    Variadic,
    /// A path such as `::u8` or `m::test`.
    Path,
    /// One segment of a path.
    PathSegment,
    /// A named type.
    NamedType,
    /// A pointer type.
    PointerType,
    /// A reference type.
    ReferenceType,
    /// A `let` statement.
    LetStatement,
    /// A `return` statement.
    ReturnStatement,
    /// An expression statement.
    ExpressionStatement,
    /// A curly-brace block.
    Block,
    /// An `if` expression.
    IfExpression,
    /// The condition of an `if`.
    Condition,
    /// An expression.
    Expression,
    /// A binary expression.
    BinaryExpression,
    /// A prefix expression.
    PrefixExpression,
    /// A postfix expression.
    PostfixExpression,
    /// A variable reference.
    Variable,
    /// A literal.
    Literal,
    /// An integer literal.
    IntegerLiteral,
    /// A float literal.
    FloatLiteral,
    /// A parenthesised grouping.
    Grouping,
}

/// A token: its kind and the span of source text it covers.
#[derive(Debug, Clone, Copy, PartialEq, Eq, Hash, Structural)]
pub struct SyntaxToken {
    pub kind: SyntaxKind,
    pub span: SourceSpan,
}

impl SyntaxToken {
    pub open spec fn spec_kind(&self) -> SyntaxKind {
        self.kind
    }

    pub open spec fn spec_span(&self) -> SourceSpan {
        self.span
    }

    #[must_use]
    pub fn new(kind: SyntaxKind, span: SourceSpan) -> (r: Self)
        ensures
            r.spec_kind() == kind,
            r.spec_span() == span,
    {
        Self { kind, span }
    }

    /// The kind of the token.
    #[must_use]
    pub fn kind(&self) -> (r: SyntaxKind)
        ensures
            r == self.spec_kind(),
    {
        self.kind
    }

    /// The span of the token.
    #[must_use]
    pub fn span(&self) -> (r: SourceSpan)
        ensures
            r == self.spec_span(),
    {
        self.span
    }
}

/// A tree node: a kind, the span it covers, and its children in order.
#[derive(Debug, PartialEq, Eq)]
pub struct SyntaxTree {
    pub kind: SyntaxKind,
    pub span: SourceSpan,
    pub children: Vec<SyntaxNode>,
}

/// Either a token or a nested tree.
#[derive(Debug, PartialEq, Eq)]
pub enum SyntaxNode {
    Token(SyntaxToken),
    Tree(SyntaxTree),
}

impl SyntaxTree {
    pub open spec fn spec_kind(&self) -> SyntaxKind {
        self.kind
    }

    pub open spec fn spec_span(&self) -> SourceSpan {
        self.span
    }

    pub open spec fn spec_children(&self) -> Seq<SyntaxNode> {
        self.children@
    }

    #[must_use]
    pub fn new(kind: SyntaxKind, span: SourceSpan) -> (r: Self)
        ensures
            r.spec_kind() == kind,
            r.spec_span() == span,
            r.spec_children().len() == 0,
    {
        Self { kind, span, children: Vec::new() }
    }

    /// The kind of the tree.
    #[must_use]
    pub fn kind(&self) -> (r: SyntaxKind)
        ensures
            r == self.spec_kind(),
    {
        self.kind
    }

    /// The span of the tree.
    #[must_use]
    pub fn span(&self) -> (r: SourceSpan)
        ensures
            r == self.spec_span(),
    {
        self.span
    }

    /// The children of the tree.
    #[must_use]
    pub fn children(&self) -> (r: &Vec<SyntaxNode>)
        ensures
            r@ == self.spec_children(),
    {
        &self.children
    }

    /// Extend the span of the tree to end at a later location. A location
    /// in another file or before the tree's start would not describe this
    /// tree: it leaves the span unchanged.
    pub fn extend_span(&mut self, location: SourceLocation)
        ensures
            final(self).spec_kind() == old(self).spec_kind(),
            final(self).spec_children() == old(self).spec_children(),
            location.spec_file() == old(self).spec_span().spec_file() && location.spec_offset()
                >= old(self).spec_span().spec_start() ==> {
                &&& final(self).spec_span().spec_file() == old(self).spec_span().spec_file()
                &&& final(self).spec_span().spec_start() == old(self).spec_span().spec_start()
                &&& final(self).spec_span().spec_end() == location.spec_offset()
            },
            !(location.spec_file() == old(self).spec_span().spec_file()
                && location.spec_offset() >= old(self).spec_span().spec_start()) ==> final(self).spec_span() == old(self).spec_span(),
    {
        if location.file() == self.span.file() && location.offset() >= self.span.start() {
            self.span = SourceSpan::new(self.span.file(), self.span.start(), location.offset());
        }
    }

    /// Append a child node.
    pub fn add_child(&mut self, child: SyntaxNode)
        ensures
            final(self).spec_kind() == old(self).spec_kind(),
            final(self).spec_span() == old(self).spec_span(),
            final(self).spec_children() == old(self).spec_children().push(child),
    {
        self.children.push(child);
    }
}

impl SyntaxNode {
    /// The token, if this node is one.
    #[must_use]
    pub fn token(&self) -> (r: Option<&SyntaxToken>)
        ensures
            match self {
                SyntaxNode::Token(t) => r matches Some(rt) && *rt == *t,
                SyntaxNode::Tree(_) => r is None,
            },
    {
        match self {
            Self::Token(token) => Some(token),
            Self::Tree(_) => None,
        }
    }

    /// The tree, if this node is one.
    #[must_use]
    pub fn tree(&self) -> (r: Option<&SyntaxTree>)
        ensures
            match self {
                SyntaxNode::Tree(t) => r matches Some(rt) && *rt == *t,
                SyntaxNode::Token(_) => r is None,
            },
    {
        match self {
            Self::Tree(tree) => Some(tree),
            Self::Token(_) => None,
        }
    }

    /// The kind of the node.
    #[must_use]
    pub fn kind(&self) -> (r: SyntaxKind)
        ensures
            r == match self {
                SyntaxNode::Token(t) => t.spec_kind(),
                SyntaxNode::Tree(t) => t.spec_kind(),
            },
    {
        match self {
            Self::Token(token) => token.kind(),
            Self::Tree(tree) => tree.kind(),
        }
    }

    /// The span of the node.
    #[must_use]
    pub fn span(&self) -> (r: SourceSpan)
        ensures
            r == match self {
                SyntaxNode::Token(t) => t.spec_span(),
                SyntaxNode::Tree(t) => t.spec_span(),
            },
    {
        match self {
            Self::Token(token) => token.span(),
            Self::Tree(tree) => tree.span(),
        }
    }
}

/// Render a value of the syntax tree for inspection, with the covered
/// source text looked up in the file collection.
pub trait PrettyPrint {
    fn pretty_print(&self, indent: usize, files: &SourceFileCollection) -> String;
}

impl PrettyPrint for SyntaxToken {
    fn pretty_print(&self, indent: usize, files: &SourceFileCollection) -> String {
        pretty_token(self, indent, files)
    }
}

impl PrettyPrint for SyntaxTree {
    fn pretty_print(&self, indent: usize, files: &SourceFileCollection) -> String {
        pretty_tree(self, indent, files, PRETTY_DEPTH_LIMIT)
    }
}

impl PrettyPrint for SyntaxNode {
    fn pretty_print(&self, indent: usize, files: &SourceFileCollection) -> String {
        match self {
            SyntaxNode::Token(token) => pretty_token(token, indent, files),
            SyntaxNode::Tree(tree) => pretty_tree(tree, indent, files, PRETTY_DEPTH_LIMIT),
        }
    }
}

/// The nesting depth up to which trees are rendered.
pub(crate) const PRETTY_DEPTH_LIMIT: u64 = 0xffff_ffff;

fn push_indent(s: &mut String, indent: usize) {
    let mut i: usize = 0;
    while i < indent
        decreases indent - i,
    {
        s.append(" ");
        i += 1;
    }
}

fn push_span(s: &mut String, span: &SourceSpan) {
    s.append("#");
    let f = usize_to_string(span.file().0);
    s.append(f.as_str());
    s.append(" ");
    let a = usize_to_string(span.start());
    s.append(a.as_str());
    s.append("..");
    let b = usize_to_string(span.end());
    s.append(b.as_str());
}

/// Append a string the way source text is quoted for inspection: inside
/// double quotes, with backslash escapes for quotes, backslashes and the
/// common control characters.
fn push_quoted(s: &mut String, text: &str) {
    s.append("\u{22}");
    let n = text.unicode_len();
    let mut i: usize = 0;
    while i < n
        invariant
            n == text@.len(),
            i <= n,
        decreases n - i,
    {
        let c = text.get_char(i);
        if c == '\u{22}' {
            s.append("\\\u{22}");
        } else if c == '\\' {
            s.append("\\\\");
        } else if c == '\n' {
            s.append("\\n");
        } else if c == '\r' {
            s.append("\\r");
        } else if c == '\t' {
            s.append("\\t");
        } else {
            push_char(s, c);
        }
        i += 1;
    }
    s.append("\u{22}");
}

fn pretty_token(token: &SyntaxToken, indent: usize, files: &SourceFileCollection) -> String {
    let mut s = String::new();
    push_indent(&mut s, indent);
    s.append(kind_name(token.kind()));
    s.append(" @ ");
    push_span(&mut s, &token.span);
    match files.read_span(token.span()) {
        Some(contents) => {
            s.append(" ");
            push_quoted(&mut s, contents);
        },
        None => {
            s.append(" <unavailable>");
        },
    }
    s.append("\n");
    s
}

fn pretty_tree(
    tree: &SyntaxTree,
    indent: usize,
    files: &SourceFileCollection,
    depth: u64,
) -> String
    decreases depth,
{
    let mut s = String::new();
    push_indent(&mut s, indent);
    s.append(kind_name(tree.kind()));
    s.append(" @ ");
    push_span(&mut s, &tree.span);
    s.append("\n");
    if depth == 0 {
        return s;
    }
    let n = tree.children.len();
    let mut i: usize = 0;
    while i < n
        invariant
            n == tree.children@.len(),
            i <= n,
            depth >= 1,
        decreases n - i,
    {
        let child_indent = if indent <= usize::MAX - 2 {
            indent + 2
        } else {
            indent
        };
        let child = match &tree.children[i] {
            SyntaxNode::Token(token) => pretty_token(token, child_indent, files),
            SyntaxNode::Tree(subtree) => pretty_tree(subtree, child_indent, files, depth - 1),
        };
        s.append(child.as_str());
        i += 1;
    }
    s
}

/// The display name of a syntax kind.
pub fn kind_name(kind: SyntaxKind) -> (r: &'static str) {
    match kind {
        SyntaxKind::Error => "Error",
        SyntaxKind::LParen => "LParen",
        SyntaxKind::RParen => "RParen",
        SyntaxKind::LBrace => "LBrace",
        SyntaxKind::RBrace => "RBrace",
        SyntaxKind::LBracket => "LBracket",
        SyntaxKind::RBracket => "RBracket",
        SyntaxKind::LAngle => "LAngle",
        SyntaxKind::RAngle => "RAngle",
        SyntaxKind::Comma => "Comma",
        SyntaxKind::Colon => "Colon",
        SyntaxKind::Semicolon => "Semicolon",
        SyntaxKind::Dot => "Dot",
        SyntaxKind::Ampersand => "Ampersand",
        SyntaxKind::Pipe => "Pipe",
        SyntaxKind::Caret => "Caret",
        SyntaxKind::Plus => "Plus",
        SyntaxKind::Minus => "Minus",
        SyntaxKind::Star => "Star",
        SyntaxKind::Slash => "Slash",
        SyntaxKind::Backslash => "Backslash",
        SyntaxKind::Percent => "Percent",
        SyntaxKind::Equals => "Equals",
        SyntaxKind::Bang => "Bang",
        SyntaxKind::Tilde => "Tilde",
        SyntaxKind::Question => "Question",
        SyntaxKind::At => "At",
        SyntaxKind::DoubleQuote => "DoubleQuote",
        SyntaxKind::SingleQuote => "SingleQuote",
        SyntaxKind::Digit => "Digit",
        SyntaxKind::Letter => "Letter",
        SyntaxKind::Underscore => "Underscore",
        SyntaxKind::Whitespace => "Whitespace",
        SyntaxKind::Other => "Other",
        SyntaxKind::ShiftLeft => "ShiftLeft",
        SyntaxKind::ShiftRight => "ShiftRight",
        SyntaxKind::Equality => "Equality",
        SyntaxKind::Inequality => "Inequality",
        SyntaxKind::LessThanOrEqual => "LessThanOrEqual",
        SyntaxKind::GreaterThanOrEqual => "GreaterThanOrEqual",
        SyntaxKind::And => "And",
        SyntaxKind::Or => "Or",
        SyntaxKind::Deref => "Deref",
        SyntaxKind::Ref => "Ref",
        SyntaxKind::PathSeparator => "PathSeparator",
        SyntaxKind::DoubleDot => "DoubleDot",
        SyntaxKind::TripleDot => "TripleDot",
        SyntaxKind::Identifier => "Identifier",
        SyntaxKind::Fn => "Fn",
        SyntaxKind::Let => "Let",
        SyntaxKind::Return => "Return",
        SyntaxKind::If => "If",
        SyntaxKind::Else => "Else",
        SyntaxKind::True => "True",
        SyntaxKind::False => "False",
        SyntaxKind::File => "File",
        SyntaxKind::Function => "Function",
        SyntaxKind::ParameterList => "ParameterList",
        SyntaxKind::Parameter => "Parameter",
        SyntaxKind::Variadic => "Variadic",
        SyntaxKind::Path => "Path",
        SyntaxKind::PathSegment => "PathSegment",
        SyntaxKind::NamedType => "NamedType",
        SyntaxKind::PointerType => "PointerType",
        SyntaxKind::ReferenceType => "ReferenceType",
        SyntaxKind::LetStatement => "LetStatement",
        SyntaxKind::ReturnStatement => "ReturnStatement",
        SyntaxKind::ExpressionStatement => "ExpressionStatement",
        SyntaxKind::Block => "Block",
        SyntaxKind::IfExpression => "IfExpression",
        SyntaxKind::Condition => "Condition",
        SyntaxKind::Expression => "Expression",
        SyntaxKind::BinaryExpression => "BinaryExpression",
        SyntaxKind::PrefixExpression => "PrefixExpression",
        SyntaxKind::PostfixExpression => "PostfixExpression",
        SyntaxKind::Variable => "Variable",
        SyntaxKind::Literal => "Literal",
        SyntaxKind::IntegerLiteral => "IntegerLiteral",
        SyntaxKind::FloatLiteral => "FloatLiteral",
        SyntaxKind::Grouping => "Grouping",
    }
}

} // verus!
