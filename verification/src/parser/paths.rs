//! Path parsing: `a`, `::a`, `a::b` and so on, as a `Path` tree of
//! segments joined by separators.

use vstd::prelude::*;

use crate::parser::identifiers::identifier;
use crate::parser::{MarkClosed, Parser};
use crate::source::SourceSpan;
use crate::syntax::{SyntaxKind, SyntaxToken};

verus! {

/// Parse a path: an optional leading separator, then segments joined by
/// `::`.
pub fn path(p: &mut Parser) -> (r: MarkClosed)
    requires
        old(p).wf(),
    ensures
        final(p).wf(),
        final(p).fuel <= old(p).fuel,
{
    let open = p.open(SyntaxKind::Path);
    let _ = path_separator(p);
    let _ = path_segment(p);
    loop
        invariant
            p.wf(),
            p.fuel <= old(p).fuel,
        decreases p.fuel,
    {
        if p.fuel == 0 {
            break ;
        }
        p.fuel = p.fuel - 1;
        if path_separator(p) {
            let _ = path_segment(p);
        } else {
            break ;
        }
    }
    p.close(open)
}

/// Consume a `::` separator if one is next.
fn path_separator(p: &mut Parser) -> (r: bool)
    requires
        old(p).wf(),
    ensures
        final(p).wf(),
        final(p).fuel <= old(p).fuel,
{
    let first_colon = match p.peek(1) {
        Some(t) => t,
        None => {
            return false;
        },
    };
    let second_colon = match p.peek(2) {
        Some(t) => t,
        None => {
            return false;
        },
    };
    if first_colon.kind() == SyntaxKind::Colon && second_colon.kind() == SyntaxKind::Colon {
        let first = match p.advance() {
            Some(t) => t,
            None => {
                return false;
            },
        };
        let second = match p.advance() {
            Some(t) => t,
            None => {
                return false;
            },
        };
        let spans = [first.span(), second.span()];
        let merged = SourceSpan::merge(spans.as_slice());
        let _ = p.token(SyntaxToken::new(SyntaxKind::PathSeparator, merged));
        true
    } else {
        false
    }
}

/// Parse one path segment: an identifier.
pub fn path_segment(p: &mut Parser) -> (r: MarkClosed)
    requires
        old(p).wf(),
    ensures
        final(p).wf(),
        final(p).fuel <= old(p).fuel,
{
    let open = p.open(SyntaxKind::PathSegment);
    match identifier(p) {
        Some(_) => p.close(open),
        None => p.error(open, "expected identifier"),
    }
}

} // verus!
