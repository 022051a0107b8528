//! Whitespace handling: runs of whitespace tokens are folded into one
//! whitespace token covering them all.

use vstd::prelude::*;

use crate::parser::Parser;
use crate::source::SourceSpan;
use crate::syntax::{SyntaxKind, SyntaxToken};

verus! {

/// Consume any whitespace at the current position and add it to the tree
/// as one token.
pub fn skip_whitespace(p: &mut Parser)
    requires
        old(p).wf(),
    ensures
        final(p).wf(),
        final(p).fuel <= old(p).fuel,
{
    let tokens = p.advance_while_kind(SyntaxKind::Whitespace);
    if tokens.len() == 0 {
        return ;
    }
    let mut spans: Vec<SourceSpan> = Vec::new();
    let n = tokens.len();
    let mut i: usize = 0;
    while i < n
        invariant
            n == tokens@.len(),
            i <= n,
            spans@.len() == i,
            forall|k: int|
                0 <= k < tokens@.len() ==> {
                    &&& (#[trigger] tokens@[k]).spec_span().spec_file()
                        == tokens@[0].spec_span().spec_file()
                    &&& tokens@[k].spec_span().spec_start() < tokens@[k].spec_span().spec_end()
                },
            forall|k: int| 0 <= k < i ==> #[trigger] spans@[k] == tokens@[k].spec_span(),
        decreases n - i,
    {
        spans.push(tokens[i].span());
        i += 1;
    }
    let merged = SourceSpan::merge(spans.as_slice());
    let _ = p.token(SyntaxToken::new(SyntaxKind::Whitespace, merged));
}

} // verus!
