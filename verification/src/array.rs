//! Array-repetition syntax: `[element; length]`, an element expression and
//! a length expression separated by a semicolon.

use vstd::prelude::*;

use crate::expression::Expression;
use crate::span::{join_spans, Span};

verus! {

/// Anything that knows the region of source it was written in.
pub trait Spanned {
    spec fn spec_span(&self) -> Span;

    fn span(&self) -> (s: Span)
        ensures
            s == self.spec_span(),
    ;
}

impl Spanned for Expression {
    open spec fn spec_span(&self) -> Span {
        self.span_of()
    }

    fn span(&self) -> (s: Span) {
        Expression::span(self)
    }
}

/// The semicolon separating the repeated element from the length.
#[derive(Clone, Copy, Debug, PartialEq, Eq, Structural)]
pub struct SemicolonToken {
    pub span: Span,
}

/// An array built by repeating one element a given number of times.
#[derive(Debug)]
pub struct ArrayRepeatDescriptor<T> {
    pub elem: Box<T>,
    pub semicolon_token: SemicolonToken,
    pub len: Box<Expression>,
}

impl<T> Spanned for ArrayRepeatDescriptor<T> where T: Spanned {
    open spec fn spec_span(&self) -> Span {
        if self.elem.spec_span().start < self.len.spec_span().end {
            Span { start: self.elem.spec_span().start, end: self.len.spec_span().end }
        } else {
            Span { start: self.len.spec_span().start, end: self.elem.spec_span().end }
        }
    }

    /// The descriptor covers everything from its element to its length.
    fn span(&self) -> (s: Span) {
        join_spans(self.elem.span(), self.len.span())
    }
}

/// Assembles an array-repeat descriptor from its parsed parts: the
/// repeated element, the separating semicolon, and the length expression.
pub fn array_repeat_descriptor<T: Spanned>(
    elem: T,
    semicolon_token: SemicolonToken,
    len: Expression,
) -> (r: ArrayRepeatDescriptor<T>)
    ensures
        *r.elem == elem,
        r.semicolon_token == semicolon_token,
        *r.len == len,
{
    ArrayRepeatDescriptor { elem: Box::new(elem), semicolon_token, len: Box::new(len) }
}

} // verus!
