//! Parameter list parsing: named `name: type` parameters separated by
//! commas, optionally ending in the `...` variadic marker.

use vstd::prelude::*;

use crate::parser::identifiers::identifier;
use crate::parser::types::ty;
use crate::parser::whitespace::skip_whitespace;
use crate::parser::{MarkClosed, Parser};
use crate::source::SourceSpan;
use crate::syntax::{SyntaxKind, SyntaxToken};

verus! {

/// Parse a parameter list, up to but not including the closing `)`.
pub fn parameter_list(p: &mut Parser) -> (r: MarkClosed)
    requires
        old(p).wf(),
    ensures
        final(p).wf(),
        final(p).fuel <= old(p).fuel,
{
    let open = p.open(SyntaxKind::ParameterList);
    skip_whitespace(p);
    loop
        invariant
            p.wf(),
            p.fuel <= old(p).fuel,
        decreases p.fuel,
    {
        if p.fuel == 0 {
            break ;
        }
        p.fuel = p.fuel - 1;
        if p.is_at(SyntaxKind::RParen) {
            break ;
        }
        skip_whitespace(p);
        if p.is_at(SyntaxKind::Dot) {
            let d1 = p.peek(1);
            let d2 = p.peek(2);
            let d3 = p.peek(3);
            let all_dots = match (d1, d2, d3) {
                (Some(a), Some(b), Some(c)) => a.kind() == SyntaxKind::Dot && b.kind()
                    == SyntaxKind::Dot && c.kind() == SyntaxKind::Dot,
                _ => false,
            };
            if all_dots {
                let first = match p.advance() {
                    Some(t) => t,
                    None => {
                        break ;
                    },
                };
                let _ = p.advance();
                let last = match p.advance() {
                    Some(t) => t,
                    None => {
                        break ;
                    },
                };
                if first.span().file() == last.span().file() {
                    let spans = [first.span(), last.span()];
                    let merged = SourceSpan::merge(spans.as_slice());
                    let _ = p.token(SyntaxToken::new(SyntaxKind::Variadic, merged));
                }
                break ;
            }
            return p.error(open, "expected variadic dots");
        }
        let _ = parameter(p);
        skip_whitespace(p);
        match p.consume_if(SyntaxKind::Comma) {
            Some(_) => {},
            None => {
                break ;
            },
        }
    }
    p.close(open)
}

/// Parse one named parameter: `name: type`.
fn parameter(p: &mut Parser) -> (r: MarkClosed)
    requires
        old(p).wf(),
    ensures
        final(p).wf(),
        final(p).fuel <= old(p).fuel,
{
    let open = p.open(SyntaxKind::Parameter);
    match identifier(p) {
        Some(_) => {},
        None => {
            return p.error(open, "expected parameter name");
        },
    }
    skip_whitespace(p);
    match p.consume_if(SyntaxKind::Colon) {
        Some(_) => {},
        None => {
            return p.error(open, "expected parameter type colon");
        },
    }
    skip_whitespace(p);
    let _ = ty(p);
    p.close(open)
}

} // verus!
