//! Inline-assembly blocks as declared in the source: registers with
//! optional initializers, a body of instructions, and the rule that decides
//! the block's overall type.

use vstd::prelude::*;

use crate::expression::Expression;
use crate::span::{Ident, Span};
use crate::type_engine::{IntegerBits, TypeInfo};
use crate::typed_expression::{AsmOp, AsmRegister};

verus! {

/// One register declared by the block, with its optional initializer
/// expression (type-checked independently of the block).
#[derive(Debug)]
pub struct AsmRegisterDeclaration {
    pub name: Ident,
    pub initializer: Option<Expression>,
}

/// An inline-assembly block before checking.
#[derive(Debug)]
pub struct AsmExpression {
    pub registers: Vec<AsmRegisterDeclaration>,
    pub body: Vec<AsmOp>,
    /// The register whose value the block implicitly returns, if one is
    /// flagged.
    pub implicit_return: Option<(AsmRegister, Span)>,
    pub return_type: TypeInfo,
    pub whole_block_span: Span,
}

/// The block's overall type: the declared return type when one is written;
/// else, when a register is flagged as the implicit return, the 64-bit
/// unsigned integer; else unit.
pub fn asm_return_type(declared: Option<TypeInfo>, has_implicit_return: bool) -> (r: TypeInfo)
    ensures
        declared matches Some(t) ==> r == t,
        declared is None && has_implicit_return ==> r == TypeInfo::UnsignedInteger(
            IntegerBits::SixtyFour,
        ),
        declared is None && !has_implicit_return ==> r is Unit,
{
    match declared {
        Some(t) => t,
        None => {
            if has_implicit_return {
                TypeInfo::UnsignedInteger(IntegerBits::SixtyFour)
            } else {
                TypeInfo::Unit
            }
        },
    }
}

impl AsmExpression {
    /// Assembles a block from its parsed parts, deciding its overall type
    /// by the [`asm_return_type`] rule.
    pub fn new(
        registers: Vec<AsmRegisterDeclaration>,
        body: Vec<AsmOp>,
        implicit_return: Option<(AsmRegister, Span)>,
        declared_return_type: Option<TypeInfo>,
        whole_block_span: Span,
    ) -> (r: AsmExpression)
        ensures
            r.registers == registers,
            r.body == body,
            r.implicit_return == implicit_return,
            r.whole_block_span == whole_block_span,
            declared_return_type matches Some(t) ==> r.return_type == t,
            declared_return_type is None && implicit_return is Some ==> r.return_type
                == TypeInfo::UnsignedInteger(IntegerBits::SixtyFour),
            declared_return_type is None && implicit_return is None ==> r.return_type is Unit,
    {
        let has_implicit_return = match &implicit_return {
            Some(_) => true,
            None => false,
        };
        let return_type = asm_return_type(declared_return_type, has_implicit_return);
        AsmExpression { registers, body, implicit_return, return_type, whole_block_span }
    }
}

} // verus!
