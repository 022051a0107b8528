//! Type parsing: named types (paths), pointer types and reference types.

use vstd::prelude::*;

use crate::parser::paths::path;
use crate::parser::{MarkClosed, Parser};
use crate::syntax::SyntaxKind;

verus! {

/// Parse a type annotation.
pub fn ty(p: &mut Parser) -> (r: MarkClosed)
    requires
        old(p).wf(),
    ensures
        final(p).wf(),
        final(p).fuel <= old(p).fuel,
    decreases old(p).fuel as int, 0int,
{
    if p.fuel == 0 {
        let open = p.open(SyntaxKind::Error);
        return p.close(open);
    }
    p.fuel = p.fuel - 1;
    let starts = [SyntaxKind::Identifier, SyntaxKind::Colon];
    if p.is_at_any(starts.as_slice()) {
        named_ty(p)
    } else if p.is_at(SyntaxKind::Star) {
        pointer_ty(p)
    } else if p.is_at(SyntaxKind::Ampersand) {
        reference_ty(p)
    } else {
        let open = p.open(SyntaxKind::Error);
        match p.consume() {
            Some(_) => {},
            None => {},
        }
        p.close(open)
    }
}

/// Parse a named type: a path.
fn named_ty(p: &mut Parser) -> (r: MarkClosed)
    requires
        old(p).wf(),
    ensures
        final(p).wf(),
        final(p).fuel <= old(p).fuel,
{
    let open = p.open(SyntaxKind::NamedType);
    let _ = path(p);
    p.close(open)
}

/// Parse a pointer type: `*` followed by a type.
fn pointer_ty(p: &mut Parser) -> (r: MarkClosed)
    requires
        old(p).wf(),
    ensures
        final(p).wf(),
        final(p).fuel <= old(p).fuel,
    decreases old(p).fuel as int, 1int,
{
    let open = p.open(SyntaxKind::PointerType);
    match p.consume_if(SyntaxKind::Star) {
        Some(_) => {},
        None => {
            return p.error(open, "expected pointer star");
        },
    }
    let _ = ty(p);
    p.close(open)
}

/// Parse a reference type: `&` followed by a type.
fn reference_ty(p: &mut Parser) -> (r: MarkClosed)
    requires
        old(p).wf(),
    ensures
        final(p).wf(),
        final(p).fuel <= old(p).fuel,
    decreases old(p).fuel as int, 1int,
{
    let open = p.open(SyntaxKind::ReferenceType);
    match p.consume_if(SyntaxKind::Ampersand) {
        Some(_) => {},
        None => {
            return p.error(open, "expected reference ampersand");
        },
    }
    let _ = ty(p);
    p.close(open)
}

} // verus!
