//! Identifier handling.

use vstd::prelude::*;

use crate::parser::Parser;
use crate::syntax::{SyntaxKind, SyntaxToken};

verus! {

/// Consume an identifier token, if one is next.
pub fn identifier(p: &mut Parser) -> (r: Option<SyntaxToken>)
    requires
        old(p).wf(),
    ensures
        final(p).wf(),
        final(p).fuel <= old(p).fuel,
{
    p.consume_if(SyntaxKind::Identifier)
}

} // verus!
