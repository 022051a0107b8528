//! Statement parsing: `let` declarations, `return` statements, and plain
//! expressions used as statements.

use vstd::prelude::*;

use crate::parser::expressions::expression;
use crate::parser::identifiers::identifier;
use crate::parser::types::ty;
use crate::parser::whitespace::skip_whitespace;
use crate::parser::{MarkClosed, Parser};
use crate::syntax::SyntaxKind;

verus! {

/// Parse one statement.
pub fn statement(p: &mut Parser) -> (r: MarkClosed)
    requires
        old(p).wf(),
    ensures
        final(p).wf(),
        final(p).fuel <= old(p).fuel,
    decreases old(p).fuel as int,
{
    if p.fuel == 0 {
        let open = p.open(SyntaxKind::Error);
        return p.close(open);
    }
    p.fuel = p.fuel - 1;
    if p.is_at(SyntaxKind::Let) {
        if p.fuel >= 1 {
            let_statement(p)
        } else {
            let open = p.open(SyntaxKind::Error);
            p.close(open)
        }
    } else if p.is_at(SyntaxKind::Return) {
        if p.fuel >= 1 {
            return_statement(p)
        } else {
            let open = p.open(SyntaxKind::Error);
            p.close(open)
        }
    } else {
        let closed = expression(p);
        let _ = p.consume_if(SyntaxKind::Semicolon);
        closed
    }
}

/// Parse a `let` statement: `let name [: type] = expression ;`.
fn let_statement(p: &mut Parser) -> (r: MarkClosed)
    requires
        old(p).wf(),
        old(p).fuel >= 1,
    ensures
        final(p).wf(),
        final(p).fuel <= old(p).fuel,
    decreases old(p).fuel as int,
{
    p.fuel = p.fuel - 1;
    let open = p.open(SyntaxKind::LetStatement);
    match p.consume_if(SyntaxKind::Let) {
        Some(_) => {},
        None => {
            return p.error(open, "expected let keyword");
        },
    }
    skip_whitespace(p);
    match identifier(p) {
        Some(_) => {},
        None => {
            return p.error(open, "expected variable name");
        },
    }
    skip_whitespace(p);
    match p.consume_if(SyntaxKind::Colon) {
        Some(_) => {
            skip_whitespace(p);
            let _ = ty(p);
            skip_whitespace(p);
        },
        None => {},
    }
    match p.consume_if(SyntaxKind::Equals) {
        Some(_) => {},
        None => {
            return p.error(open, "expected binding equals");
        },
    }
    skip_whitespace(p);
    let _ = expression(p);
    let _ = p.consume_if(SyntaxKind::Semicolon);
    p.close(open)
}

/// Parse a `return` statement: `return [expression] ;`.
fn return_statement(p: &mut Parser) -> (r: MarkClosed)
    requires
        old(p).wf(),
        old(p).fuel >= 1,
    ensures
        final(p).wf(),
        final(p).fuel <= old(p).fuel,
    decreases old(p).fuel as int,
{
    p.fuel = p.fuel - 1;
    let open = p.open(SyntaxKind::ReturnStatement);
    match p.consume_if(SyntaxKind::Return) {
        Some(_) => {},
        None => {
            return p.error(open, "expected return keyword");
        },
    }
    skip_whitespace(p);
    if !p.is_at(SyntaxKind::Semicolon) {
        let _ = expression(p);
    }
    let _ = p.consume_if(SyntaxKind::Semicolon);
    p.close(open)
}

} // verus!
