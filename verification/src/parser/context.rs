//! The annotation of a syntax tree that has not been analysed yet.
use crate::source::span::{HasSpan, Span};
use vstd::prelude::*;

verus! {

/// All that the parser knows of a node: the source text it was read from.
#[derive(Clone, Copy, Debug, PartialEq, Eq, Structural)]
pub struct ParserContext {
    pub span: Span,
}

impl View for ParserContext {
    type V = ParserContext;

    open spec fn view(&self) -> ParserContext {
        *self
    }
}

impl HasSpan for ParserContext {
    open spec fn spec_span(&self) -> Span {
        self.span
    }

    fn span(&self) -> (r: Span) {
        self.span
    }
}

impl ParserContext {
    pub fn new(span: Span) -> (r: ParserContext)
        ensures
            r == (ParserContext { span }),
    {
        ParserContext { span }
    }
}

} // verus!
