//! The diagnostics envelope: every fallible operation of the core returns a
//! [`CompileResult`], an optional value together with the warnings and errors
//! accumulated so far, so that one pass can surface every defect at once.

use vstd::prelude::*;

use crate::span::Span;
use crate::type_engine::IntegerBits;

verus! {

/// Advisory findings: they never block compilation.
#[derive(Clone, Debug)]
pub enum Warning {
    NonClassCaseEnumName { enum_name: String },
    NonClassCaseEnumVariantName { variant_name: String },
    /// A numeric cast narrows the value's width and may lose precision.
    LossOfPrecision { initial_type: IntegerBits, cast_to: IntegerBits },
}

/// A warning attached to the place in the source that provoked it.
#[derive(Clone, Debug)]
pub struct CompileWarning {
    pub span: Span,
    pub warning_content: Warning,
}

/// Recoverable semantic errors. Each carries the span of the offending
/// source; the checker records the error and continues with a placeholder.
#[derive(Clone, Debug)]
pub enum CompileError {
    UnknownEnumVariant { enum_name: String, variant_name: String, span: Span },
    MissingEnumInstantiator { span: Span },
    UnnecessaryEnumInstantiator { span: Span },
    MoreThanOneEnumInstantiator { span: Span, ty: String },
    UnknownVariable { variable_name: String, span: Span },
    TypeMismatch { expected: String, received: String, span: Span },
    InvalidExpressionOnLhs { span: Span },
    InvalidAbiType { span: Span },
    StorageFieldNotFound { field_name: String, span: Span },
    NestedStorageAccess { span: Span },
    EnumNotFound { name: String, span: Span },
    IncorrectNumberOfTypeArguments { span: Span },
    FieldAccessOnNonStruct { span: Span },
    FieldNotFound { field_name: String, span: Span },
    UnimplementedRule { span: Span },
}

/// The envelope itself. A computation is successful iff `errors` is empty;
/// a present `value` beside errors is a best-effort partial result kept only
/// so that further diagnostics can be produced.
#[derive(Clone, Debug)]
pub struct CompileResult<T> {
    pub value: Option<T>,
    pub warnings: Vec<CompileWarning>,
    pub errors: Vec<CompileError>,
}

/// Wraps a computed value with the diagnostics gathered while computing it.
pub fn ok<T>(value: T, warnings: Vec<CompileWarning>, errors: Vec<CompileError>) -> (r:
    CompileResult<T>)
    ensures
        r.value == Some(value),
        r.warnings == warnings,
        r.errors == errors,
{
    CompileResult { value: Some(value), warnings, errors }
}

/// Reports failure: no value, only the diagnostics gathered so far.
pub fn err<T>(warnings: Vec<CompileWarning>, errors: Vec<CompileError>) -> (r: CompileResult<T>)
    ensures
        r.value is None,
        r.warnings == warnings,
        r.errors == errors,
{
    CompileResult { value: None, warnings, errors }
}

} // verus!
