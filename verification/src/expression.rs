//! Untyped expressions, as the parsing collaborator hands them over. The
//! checker consumes them as immutable input data.

use vstd::prelude::*;

use crate::literal::Literal;
use crate::span::{Ident, Span};
use crate::type_engine::TypeId;

verus! {

#[derive(Debug)]
pub enum Expression {
    Literal { value: Literal, span: Span },
    VariableExpression { name: Ident, span: Span },
    Tuple { fields: Vec<Expression>, span: Span },
    /// Looking up a field on the value of `prefix`.
    SubfieldExpression { prefix: Box<Expression>, field_to_access: Ident, span: Span },
    ArrayIndex { prefix: Box<Expression>, index: Box<Expression>, span: Span },
    /// Naming a variant of a declared enum, with the arguments supplied for
    /// its payload and any concrete handles for its type parameters.
    EnumInstantiation {
        enum_name: Ident,
        variant_name: Ident,
        args: Vec<Expression>,
        type_arguments: Vec<TypeId>,
        span: Span,
    },
}

impl Expression {
    pub fn span(&self) -> (s: Span)
        ensures
            s == self.span_of(),
    {
        match self {
            Expression::Literal { span, .. } => *span,
            Expression::VariableExpression { span, .. } => *span,
            Expression::Tuple { span, .. } => *span,
            Expression::SubfieldExpression { span, .. } => *span,
            Expression::ArrayIndex { span, .. } => *span,
            Expression::EnumInstantiation { span, .. } => *span,
        }
    }

    pub open spec fn span_of(self) -> Span {
        match self {
            Expression::Literal { span, .. } => span,
            Expression::VariableExpression { span, .. } => span,
            Expression::Tuple { span, .. } => span,
            Expression::SubfieldExpression { span, .. } => span,
            Expression::ArrayIndex { span, .. } => span,
            Expression::EnumInstantiation { span, .. } => span,
        }
    }
}

} // verus!
