//! Expression parsing: blocks, `if` expressions, and operator expressions
//! parsed by binding power so that precedence and associativity come out
//! right.

use vstd::prelude::*;

use crate::parser::identifiers::identifier;
use crate::parser::statements::statement;
use crate::parser::whitespace::skip_whitespace;
use crate::parser::{MarkClosed, Parser};
use crate::source::SourceSpan;
use crate::syntax::{SyntaxKind, SyntaxToken};

verus! {

/// Parse an expression: a block, an `if` expression, or an operator
/// expression.
pub fn expression(p: &mut Parser) -> (r: MarkClosed)
    requires
        old(p).wf(),
    ensures
        final(p).wf(),
        final(p).fuel <= old(p).fuel,
    decreases old(p).fuel as int,
{
    if p.fuel == 0 {
        let open = p.open(SyntaxKind::Error);
        return p.close(open);
    }
    p.fuel = p.fuel - 1;
    if p.is_at(SyntaxKind::LBrace) {
        block(p)
    } else if p.is_at(SyntaxKind::If) {
        if p.fuel >= 1 {
            if_expression(p)
        } else {
            let open = p.open(SyntaxKind::Error);
            p.close(open)
        }
    } else {
        expression_bp(p, 0)
    }
}

/// Parse a block expression: statements between braces.
pub fn block(p: &mut Parser) -> (r: MarkClosed)
    requires
        old(p).wf(),
    ensures
        final(p).wf(),
        final(p).fuel <= old(p).fuel,
    decreases old(p).fuel as int,
{
    if p.fuel == 0 {
        let open = p.open(SyntaxKind::Error);
        return p.close(open);
    }
    p.fuel = p.fuel - 1;
    let open = p.open(SyntaxKind::Block);
    match p.consume_if(SyntaxKind::LBrace) {
        Some(_) => {},
        None => {
            return p.error(open, "expected block opening");
        },
    }
    skip_whitespace(p);
    loop
        invariant
            p.wf(),
            p.fuel < old(p).fuel,
        decreases p.fuel,
    {
        if p.fuel == 0 {
            break ;
        }
        p.fuel = p.fuel - 1;
        if p.is_at(SyntaxKind::RBrace) || p.at_end() {
            break ;
        }
        let _ = statement(p);
        skip_whitespace(p);
    }
    match p.consume_if(SyntaxKind::RBrace) {
        Some(_) => {},
        None => {
            return p.error(open, "expected block closing");
        },
    }
    p.close(open)
}

/// Parse an `if` expression: condition, block, and optionally `else` with
/// another block or a chained `if`.
fn if_expression(p: &mut Parser) -> (r: MarkClosed)
    requires
        old(p).wf(),
        old(p).fuel >= 1,
    ensures
        final(p).wf(),
        final(p).fuel <= old(p).fuel,
    decreases old(p).fuel as int,
{
    p.fuel = p.fuel - 1;
    let open = p.open(SyntaxKind::IfExpression);
    match p.consume_if(SyntaxKind::If) {
        Some(_) => {},
        None => {
            return p.error(open, "expected if keyword");
        },
    }
    skip_whitespace(p);
    let condition = p.open(SyntaxKind::Condition);
    let _ = expression(p);
    let _ = p.close(condition);
    skip_whitespace(p);
    let _ = block(p);
    skip_whitespace(p);
    match p.consume_if(SyntaxKind::Else) {
        Some(_) => {
            skip_whitespace(p);
            if p.is_at(SyntaxKind::If) {
                if p.fuel >= 1 {
                    let _ = if_expression(p);
                }
            } else {
                let _ = block(p);
            }
        },
        None => {},
    }
    p.close(open)
}

/// Parse an operator expression with a minimum binding power: prefix
/// operators and primaries first, then postfix and infix operators for as
/// long as they bind at least as tightly as `min_bp`.
fn expression_bp(p: &mut Parser, min_bp: u8) -> (r: MarkClosed)
    requires
        old(p).wf(),
    ensures
        final(p).wf(),
        final(p).fuel <= old(p).fuel,
    decreases old(p).fuel as int,
{
    if p.fuel == 0 {
        let open = p.open(SyntaxKind::Error);
        return p.close(open);
    }
    p.fuel = p.fuel - 1;
    let mut lhs = match prefix_op(p) {
        Some(op) => {
            let right_bp = prefix_op_bp(op.kind());
            let unary = p.open(SyntaxKind::PrefixExpression);
            let _ = consume_prefix_op(p);
            skip_whitespace(p);
            let _ = expression_bp(p, right_bp);
            p.close(unary)
        },
        None => primary(p),
    };
    loop
        invariant
            p.wf(),
            p.fuel < old(p).fuel,
        decreases p.fuel,
    {
        if p.fuel == 0 {
            break ;
        }
        p.fuel = p.fuel - 1;
        skip_whitespace(p);
        match postfix_op(p) {
            Some(op) => {
                let left_bp = postfix_op_bp(op.kind());
                if left_bp < min_bp {
                    break ;
                }
                let unary = p.open_before(lhs, SyntaxKind::PostfixExpression);
                let _ = consume_postfix_op(p);
                lhs = p.close(unary);
                continue ;
            },
            None => {},
        }
        let op = match infix_op(p) {
            Some(op) => op,
            None => {
                break ;
            },
        };
        let bp = infix_op_bp(op.kind());
        if bp.0 < min_bp {
            break ;
        }
        let _ = consume_infix_op(p);
        let binary = p.open_before(lhs, SyntaxKind::BinaryExpression);
        skip_whitespace(p);
        let _ = expression_bp(p, bp.1);
        lhs = p.close(binary);
    }
    lhs
}

/// The infix operator starting at the current position, combined into one
/// token for the two-character operators; `None` if none starts here.
pub fn infix_op(p: &Parser) -> (r: Option<SyntaxToken>)
    requires
        p.wf(),
{
    let first = match p.peek(1) {
        Some(t) => t,
        None => {
            return None;
        },
    };
    let second = p.peek(2);
    let second_kind = match second {
        Some(t) => Some(t.kind()),
        None => None,
    };
    let combined = match (first.kind(), second_kind) {
        (SyntaxKind::LAngle, Some(SyntaxKind::LAngle)) => Some(SyntaxKind::ShiftLeft),
        (SyntaxKind::RAngle, Some(SyntaxKind::RAngle)) => Some(SyntaxKind::ShiftRight),
        (SyntaxKind::LAngle, Some(SyntaxKind::Equals)) => Some(SyntaxKind::LessThanOrEqual),
        (SyntaxKind::RAngle, Some(SyntaxKind::Equals)) => Some(SyntaxKind::GreaterThanOrEqual),
        (SyntaxKind::Equals, Some(SyntaxKind::Equals)) => Some(SyntaxKind::Equality),
        (SyntaxKind::Bang, Some(SyntaxKind::Equals)) => Some(SyntaxKind::Inequality),
        (SyntaxKind::Ampersand, Some(SyntaxKind::Ampersand)) => Some(SyntaxKind::And),
        (SyntaxKind::Pipe, Some(SyntaxKind::Pipe)) => Some(SyntaxKind::Or),
        _ => None,
    };
    match combined {
        Some(kind) => {
            let second_token = match second {
                Some(t) => t,
                None => {
                    return None;
                },
            };
            if first.span().file() == second_token.span().file() {
                let spans = [first.span(), second_token.span()];
                let merged = SourceSpan::merge(spans.as_slice());
                Some(SyntaxToken::new(kind, merged))
            } else {
                None
            }
        },
        None => {
            match first.kind() {
                SyntaxKind::Star | SyntaxKind::Slash | SyntaxKind::Percent | SyntaxKind::Plus
                | SyntaxKind::Minus | SyntaxKind::RAngle | SyntaxKind::LAngle | SyntaxKind::Pipe
                | SyntaxKind::Equals | SyntaxKind::Ampersand | SyntaxKind::Caret => Some(first),
                _ => None,
            }
        },
    }
}

/// The left and right binding powers of an infix operator.
pub fn infix_op_bp(kind: SyntaxKind) -> (r: (u8, u8)) {
    match kind {
        SyntaxKind::Star | SyntaxKind::Slash | SyntaxKind::Percent => (21, 22),
        SyntaxKind::Plus | SyntaxKind::Minus => (19, 20),
        SyntaxKind::ShiftLeft | SyntaxKind::ShiftRight => (17, 18),
        SyntaxKind::LAngle | SyntaxKind::LessThanOrEqual | SyntaxKind::RAngle
        | SyntaxKind::GreaterThanOrEqual => (15, 16),
        SyntaxKind::Equality | SyntaxKind::Inequality => (13, 14),
        SyntaxKind::Ampersand => (11, 12),
        SyntaxKind::Caret => (9, 10),
        SyntaxKind::Pipe => (7, 8),
        SyntaxKind::And => (5, 6),
        SyntaxKind::Or => (3, 4),
        SyntaxKind::Equals => (1, 2),
        _ => (0, 0),
    }
}

/// Consume the infix operator at the current position and add it to the
/// tree as one token.
pub fn consume_infix_op(p: &mut Parser) -> (r: Option<SyntaxToken>)
    requires
        old(p).wf(),
    ensures
        final(p).wf(),
        final(p).fuel <= old(p).fuel,
{
    let token = match infix_op(p) {
        Some(t) => t,
        None => {
            return None;
        },
    };
    match token.kind() {
        SyntaxKind::ShiftLeft | SyntaxKind::ShiftRight | SyntaxKind::LessThanOrEqual
        | SyntaxKind::GreaterThanOrEqual | SyntaxKind::Equality | SyntaxKind::Inequality
        | SyntaxKind::And | SyntaxKind::Or => {
            let _ = p.advance();
            let _ = p.advance();
        },
        _ => {
            let _ = p.advance();
        },
    }
    let _ = p.token(token);
    Some(token)
}

/// The postfix operator starting at the current position (`.*` or `.&`),
/// combined into one token; `None` if none starts here.
pub fn postfix_op(p: &Parser) -> (r: Option<SyntaxToken>)
    requires
        p.wf(),
{
    let first = match p.peek(1) {
        Some(t) => t,
        None => {
            return None;
        },
    };
    let second = match p.peek(2) {
        Some(t) => t,
        None => {
            return None;
        },
    };
    let kind = match (first.kind(), second.kind()) {
        (SyntaxKind::Dot, SyntaxKind::Star) => Some(SyntaxKind::Deref),
        (SyntaxKind::Dot, SyntaxKind::Ampersand) => Some(SyntaxKind::Ref),
        _ => None,
    };
    match kind {
        Some(k) => {
            if first.span().file() == second.span().file() {
                let spans = [first.span(), second.span()];
                let merged = SourceSpan::merge(spans.as_slice());
                Some(SyntaxToken::new(k, merged))
            } else {
                None
            }
        },
        None => None,
    }
}

/// The left binding power of a postfix operator.
pub fn postfix_op_bp(kind: SyntaxKind) -> (r: u8) {
    match kind {
        SyntaxKind::Deref | SyntaxKind::Ref => 1,
        _ => 0,
    }
}

/// Consume the postfix operator at the current position and add it to the
/// tree as one token.
pub fn consume_postfix_op(p: &mut Parser) -> (r: Option<SyntaxToken>)
    requires
        old(p).wf(),
    ensures
        final(p).wf(),
        final(p).fuel <= old(p).fuel,
{
    let op = match postfix_op(p) {
        Some(t) => t,
        None => {
            return None;
        },
    };
    match op.kind() {
        SyntaxKind::Deref | SyntaxKind::Ref => {
            let _ = p.advance();
            let _ = p.advance();
        },
        _ => {
            let _ = p.advance();
        },
    }
    let _ = p.token(op);
    Some(op)
}

/// The prefix operator at the current position (`-` or `!`); `None` if
/// none starts here.
pub fn prefix_op(p: &Parser) -> (r: Option<SyntaxToken>)
    requires
        p.wf(),
{
    let first = match p.peek(1) {
        Some(t) => t,
        None => {
            return None;
        },
    };
    match first.kind() {
        SyntaxKind::Minus | SyntaxKind::Bang => Some(first),
        _ => None,
    }
}

/// The right binding power of a prefix operator.
pub fn prefix_op_bp(kind: SyntaxKind) -> (r: u8) {
    match kind {
        SyntaxKind::Minus | SyntaxKind::Bang => 1,
        _ => 0,
    }
}

/// Consume the prefix operator at the current position and add it to the
/// tree.
pub fn consume_prefix_op(p: &mut Parser) -> (r: Option<SyntaxToken>)
    requires
        old(p).wf(),
    ensures
        final(p).wf(),
        final(p).fuel <= old(p).fuel,
{
    let op = match prefix_op(p) {
        Some(t) => t,
        None => {
            return None;
        },
    };
    let _ = p.advance();
    let _ = p.token(op);
    Some(op)
}

/// Parse a primary expression: a variable, a literal, a parenthesised
/// grouping, or an error token.
pub fn primary(p: &mut Parser) -> (r: MarkClosed)
    requires
        old(p).wf(),
    ensures
        final(p).wf(),
        final(p).fuel <= old(p).fuel,
    decreases old(p).fuel as int,
{
    if p.fuel == 0 {
        let open = p.open(SyntaxKind::Error);
        return p.close(open);
    }
    p.fuel = p.fuel - 1;
    if p.is_at(SyntaxKind::Identifier) {
        let open = p.open(SyntaxKind::Variable);
        let _ = identifier(p);
        p.close(open)
    } else if p.is_at(SyntaxKind::Digit) {
        let open = p.open(SyntaxKind::Literal);
        let _ = numeric_literal(p);
        p.close(open)
    } else if p.is_at(SyntaxKind::True) || p.is_at(SyntaxKind::False) {
        let open = p.open(SyntaxKind::Literal);
        let _ = p.consume();
        p.close(open)
    } else if p.is_at(SyntaxKind::LParen) {
        let open = p.open(SyntaxKind::Grouping);
        let _ = p.consume();
        skip_whitespace(p);
        let _ = expression(p);
        skip_whitespace(p);
        let _ = p.consume_if(SyntaxKind::RParen);
        p.close(open)
    } else {
        let open = p.open(SyntaxKind::Error);
        let _ = p.consume();
        p.close(open)
    }
}

/// Parse a numeric literal: a run of digits, and — when a dot directly
/// followed by more digits comes next — a fractional part, making it a
/// float literal.
pub fn numeric_literal(p: &mut Parser) -> (r: MarkClosed)
    requires
        old(p).wf(),
    ensures
        final(p).wf(),
        final(p).fuel <= old(p).fuel,
{
    let first = p.advance_while_kind(SyntaxKind::Digit);
    if first.len() == 0 {
        let open = p.open(SyntaxKind::Error);
        let _ = p.consume();
        return p.close(open);
    }
    let has_fraction = p.is_at(SyntaxKind::Dot) && (match p.peek(2) {
        Some(t) => t.kind() == SyntaxKind::Digit,
        None => false,
    });
    if !has_fraction {
        let spans = [first[0].span(), first[first.len() - 1].span()];
        let merged = SourceSpan::merge(spans.as_slice());
        return p.token(SyntaxToken::new(SyntaxKind::IntegerLiteral, merged));
    }
    let _ = p.advance();
    let second = p.advance_while_kind(SyntaxKind::Digit);
    if second.len() == 0 {
        let spans = [first[0].span(), first[first.len() - 1].span()];
        let merged = SourceSpan::merge(spans.as_slice());
        return p.token(SyntaxToken::new(SyntaxKind::IntegerLiteral, merged));
    }
    let spans = [first[0].span(), second[second.len() - 1].span()];
    let merged = SourceSpan::merge(spans.as_slice());
    p.token(SyntaxToken::new(SyntaxKind::FloatLiteral, merged))
}

} // verus!
