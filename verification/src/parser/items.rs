//! Top-level item parsing: a file is a sequence of function definitions.

use vstd::prelude::*;

use crate::parser::expressions::block;
use crate::parser::identifiers::identifier;
use crate::parser::parameters::parameter_list;
use crate::parser::types::ty;
use crate::parser::whitespace::skip_whitespace;
use crate::parser::{MarkClosed, Parser};
use crate::syntax::SyntaxKind;

verus! {

/// Parse a whole file: functions separated by whitespace; anything else
/// becomes an error tree.
pub fn file(p: &mut Parser) -> (r: MarkClosed)
    requires
        old(p).wf(),
    ensures
        final(p).wf(),
        final(p).fuel <= old(p).fuel,
{
    let open = p.open(SyntaxKind::File);
    skip_whitespace(p);
    loop
        invariant
            p.wf(),
            p.fuel <= old(p).fuel,
        decreases p.fuel,
    {
        if p.fuel == 0 {
            break ;
        }
        p.fuel = p.fuel - 1;
        if p.at_end() {
            break ;
        }
        if p.is_at(SyntaxKind::Fn) {
            let _ = function(p);
        } else {
            let error_open = p.open(SyntaxKind::Error);
            match p.consume() {
                Some(_) => {},
                None => {},
            }
            let _ = p.close(error_open);
        }
        skip_whitespace(p);
    }
    p.close(open)
}

/// Parse one function: `fn name ( parameters ) [: type] block`.
pub fn function(p: &mut Parser) -> (r: MarkClosed)
    requires
        old(p).wf(),
    ensures
        final(p).wf(),
        final(p).fuel <= old(p).fuel,
{
    let open = p.open(SyntaxKind::Function);
    match p.consume_if(SyntaxKind::Fn) {
        Some(_) => {},
        None => {
            return p.error(open, "expected fn keyword");
        },
    }
    skip_whitespace(p);
    match identifier(p) {
        Some(_) => {},
        None => {
            return p.error(open, "expected function name");
        },
    }
    skip_whitespace(p);
    match p.consume_if(SyntaxKind::LParen) {
        Some(_) => {},
        None => {
            return p.error(open, "expected parameter list opening");
        },
    }
    let _ = parameter_list(p);
    match p.consume_if(SyntaxKind::RParen) {
        Some(_) => {},
        None => {
            return p.error(open, "expected parameter list closing");
        },
    }
    skip_whitespace(p);
    match p.consume_if(SyntaxKind::Colon) {
        Some(_) => {
            skip_whitespace(p);
            let _ = ty(p);
        },
        None => {},
    }
    skip_whitespace(p);
    let _ = block(p);
    p.close(open)
}

} // verus!
