//! The expression type-checker: the central recursive procedure that turns
//! an untyped expression into a checked expression node, enforcing per-form
//! contracts and deciding error-recovery substitutes. A failure yields a
//! unit placeholder node of the error-recovery type and a recorded error,
//! never an abort, so one pass surfaces every defect in a unit.

use vstd::prelude::*;

use crate::enum_instantiation::instantiate_enum;
use crate::error::{ok, CompileError, CompileResult, CompileWarning};
use crate::expression::Expression;
use crate::literal::{literal_eq, Literal};
use crate::namespace::{find_enum_spec, find_symbol_spec, Namespace};
use crate::resolved_type::{direct, lemma_direct_extend, ResolvedType};
use crate::span::{ident_eq, Span};
use crate::type_engine::{extends, Engine, IntegerBits, OwnedTypedStructField, TypeId, TypeInfo};
use crate::typed_expression::{TypedCodeBlock, TypedExpression, TypedExpressionVariant};
use vstd::utf8::encode_utf8;

verus! {

/// The resolved shape a literal's type has.
pub open spec fn lit_shape(l: Literal) -> ResolvedType {
    match l {
        Literal::U8(_) => ResolvedType::UnsignedInteger(IntegerBits::Eight),
        Literal::U16(_) => ResolvedType::UnsignedInteger(IntegerBits::Sixteen),
        Literal::U32(_) => ResolvedType::UnsignedInteger(IntegerBits::ThirtyTwo),
        Literal::U64(_) => ResolvedType::UnsignedInteger(IntegerBits::SixtyFour),
        Literal::Numeric(_) => ResolvedType::UnsignedInteger(IntegerBits::SixtyFour),
        Literal::String(s) => ResolvedType::Str(encode_utf8(s@).len() as u64),
        Literal::Boolean(_) => ResolvedType::Boolean,
        Literal::Byte(_) => ResolvedType::Byte,
        Literal::B256(_) => ResolvedType::B256,
    }
}

/// Interns the literal's type and hands back its handle, laid out directly.
fn literal_type(l: &Literal, engine: &mut Engine) -> (id: TypeId)
    ensures
        extends(final(engine).types(), old(engine).types()),
        final(engine).types().len() == old(engine).types().len() + 1,
        direct(final(engine).types(), id, lit_shape(*l)),
{
    match l {
        Literal::U8(_) => engine.insert(TypeInfo::UnsignedInteger(IntegerBits::Eight)),
        Literal::U16(_) => engine.insert(TypeInfo::UnsignedInteger(IntegerBits::Sixteen)),
        Literal::U32(_) => engine.insert(TypeInfo::UnsignedInteger(IntegerBits::ThirtyTwo)),
        Literal::U64(_) => engine.insert(TypeInfo::UnsignedInteger(IntegerBits::SixtyFour)),
        Literal::Numeric(_) => engine.insert(TypeInfo::UnsignedInteger(IntegerBits::SixtyFour)),
        Literal::String(s) => {
            let n = s.as_str().as_bytes().len();
            engine.insert(TypeInfo::Str(n as u64))
        },
        Literal::Boolean(_) => engine.insert(TypeInfo::Boolean),
        Literal::Byte(_) => engine.insert(TypeInfo::Byte),
        Literal::B256(_) => engine.insert(TypeInfo::B256),
    }
}

/// A unit placeholder of the error-recovery type, substituted where a form
/// could not be checked, so that checking its siblings can continue.
fn error_recovery_node(span: Span, engine: &mut Engine) -> (te: TypedExpression)
    ensures
        extends(final(engine).types(), old(engine).types()),
        is_recovery_node(te, final(engine).types()),
        te.span == span,
    {
    let rid = engine.insert(TypeInfo::ErrorRecovery);
    TypedExpression {
        expression: TypedExpressionVariant::Tuple { fields: Vec::new() },
        return_type: rid,
        is_constant: false,
        span,
    }
}

/// A zero-field tuple placeholder whose type reads as error recovery.
pub open spec fn is_recovery_node(te: TypedExpression, ts: Seq<TypeInfo>) -> bool {
    &&& te.expression matches TypedExpressionVariant::Tuple { fields } && fields@.len() == 0
    &&& direct(ts, te.return_type, ResolvedType::ErrorRecovery)
}

impl TypedExpression {
    /// Checks one untyped expression against the scope and the registry,
    /// with an optional expected type used as a bidirectional hint. The
    /// result always carries a node: on a reported defect it is the
    /// error-recovery placeholder, and checking continues elsewhere.
    #[verifier::loop_isolation(false)]
    #[verifier::rlimit(60)]
    pub fn type_check(
        expr: Expression,
        namespace: &Namespace,
        engine: &mut Engine,
        expected_type: Option<TypeId>,
        self_type: TypeId,
    ) -> (r: CompileResult<TypedExpression>)
        ensures
            extends(final(engine).types(), old(engine).types()),
            r.value is Some,
            expr matches Expression::Literal { value, span } ==> (r.value matches Some(te) && {
                &&& te.expression matches TypedExpressionVariant::Literal(l) && literal_eq(l, value)
                &&& te.span == span
                &&& te.is_constant == true
                &&& direct(final(engine).types(), te.return_type, lit_shape(value))
                &&& expected_type is None ==> r.errors@.len() == 0
                &&& r.warnings@.len() == 0
            }),
            expr matches Expression::VariableExpression { name, span } ==> (r.value matches Some(
                te,
            ) && (match find_symbol_spec(namespace.symbols@, name.name@) {
                Some(t) => {
                    &&& te.expression matches TypedExpressionVariant::VariableExpression {
                        name: n,
                    } && ident_eq(n, name)
                    &&& te.return_type == t
                    &&& te.span == span
                    &&& expected_type is None ==> r.errors@.len() == 0
                },
                None => {
                    &&& is_recovery_node(te, final(engine).types())
                    &&& r.errors@.len() == 1
                    &&& r.errors@[0] matches CompileError::UnknownVariable {
                        variable_name,
                        span: sp,
                    } && variable_name@ == name.name@ && sp == span
                },
            })),
            expr matches Expression::Tuple { fields, span } ==> (r.value matches Some(te) && {
                &&& te.expression matches TypedExpressionVariant::Tuple { fields: tf }
                    && tf@.len() == fields@.len()
                &&& te.span == span
                &&& direct(final(engine).types(), te.return_type, ResolvedType::Unit)
            }),
            expr matches Expression::ArrayIndex { span, .. } ==> (r.value matches Some(te) && {
                &&& is_recovery_node(te, final(engine).types())
                &&& r.errors@.len() == 1
                &&& r.errors@[0] matches CompileError::UnimplementedRule { span: sp } && sp == span
            }),
            expr matches Expression::EnumInstantiation { enum_name, span, .. } ==> (r.value
                is Some && (find_enum_spec(namespace.enum_decls@, enum_name.name@) is None ==> (
            r.errors@.len() == 1 && (r.errors@[0] matches CompileError::EnumNotFound {
                name,
                span: sp,
            } && name@ == enum_name.name@ && sp == span)))),
        decreases expr,
    {
        let mut warnings: Vec<CompileWarning> = Vec::new();
        let mut errors: Vec<CompileError> = Vec::new();
        match expr {
            Expression::Literal { value, span } => {
                let tid = literal_type(&value, engine);
                match engine.check_expected_type(tid, &expected_type, span) {
                    Some(e) => errors.push(e),
                    None => {},
                }
                ok(
                    TypedExpression {
                        expression: TypedExpressionVariant::Literal(value),
                        return_type: tid,
                        is_constant: true,
                        span,
                    },
                    warnings,
                    errors,
                )
            },
            Expression::VariableExpression { name, span } => {
                match namespace.find_symbol(&name) {
                    Some(tid) => {
                        match engine.check_expected_type(tid, &expected_type, span) {
                            Some(e) => errors.push(e),
                            None => {},
                        }
                        ok(
                            TypedExpression {
                                expression: TypedExpressionVariant::VariableExpression { name },
                                return_type: tid,
                                is_constant: false,
                                span,
                            },
                            warnings,
                            errors,
                        )
                    },
                    None => {
                        errors.push(
                            CompileError::UnknownVariable {
                                variable_name: name.name.clone(),
                                span,
                            },
                        );
                        let te = error_recovery_node(span, engine);
                        ok(te, warnings, errors)
                    },
                }
            },
            Expression::Tuple { fields, span } => {
                let ghost all = fields@;
                let mut fields = fields;
                let mut typed_fields: Vec<TypedExpression> = Vec::new();
                while fields.len() > 0
                    invariant
                        typed_fields@.len() + fields@.len() == all.len(),
                        fields@ == all.skip(typed_fields@.len() as int),
                        extends(engine.types(), old(engine).types()),
                    decreases fields.len(),
                {
                    let ghost i = typed_fields@.len() as int;
                    proof {
                        assert(all.skip(i)[0] == all[i]);
                        assert(all.skip(i).drop_first() =~= all.skip(i + 1));
                    }
                    let child = fields.remove(0);
                    let mut checked = TypedExpression::type_check(
                        child,
                        namespace,
                        engine,
                        None,
                        self_type,
                    );
                    warnings.append(&mut checked.warnings);
                    errors.append(&mut checked.errors);
                    match checked.value {
                        Some(te) => typed_fields.push(te),
                        None => {
                            proof {
                                assert(false);
                            }
                        },
                    }
                }
                let tid = engine.insert(TypeInfo::Unit);
                match engine.check_expected_type(tid, &expected_type, span) {
                    Some(e) => errors.push(e),
                    None => {},
                }
                ok(
                    TypedExpression {
                        expression: TypedExpressionVariant::Tuple { fields: typed_fields },
                        return_type: tid,
                        is_constant: false,
                        span,
                    },
                    warnings,
                    errors,
                )
            },
            Expression::SubfieldExpression { prefix, field_to_access, span } => {
                let mut checked = TypedExpression::type_check(
                    *prefix,
                    namespace,
                    engine,
                    None,
                    self_type,
                );
                warnings.append(&mut checked.warnings);
                errors.append(&mut checked.errors);
                let typed_prefix = match checked.value {
                    Some(te) => te,
                    None => {
                        proof {
                            assert(false);
                        }
                        let te = error_recovery_node(span, engine);
                        return ok(te, warnings, errors);
                    },
                };
                // The checked operand must defer to a struct descriptor;
                // the located field's handle types the access.
                let parent = match engine.follow_ref_chain(typed_prefix.return_type) {
                    Some(p) => p,
                    None => {
                        errors.push(CompileError::FieldAccessOnNonStruct { span });
                        let te = error_recovery_node(span, engine);
                        return ok(te, warnings, errors);
                    },
                };
                if parent.0 >= engine.len() {
                    errors.push(CompileError::FieldAccessOnNonStruct { span });
                    let te = error_recovery_node(span, engine);
                    return ok(te, warnings, errors);
                }
                let field_lookup = match engine.get(parent) {
                    TypeInfo::Struct { fields, .. } => find_struct_field(
                        fields,
                        &field_to_access.name,
                    ),
                    _ => {
                        errors.push(CompileError::FieldAccessOnNonStruct { span });
                        let te = error_recovery_node(span, engine);
                        return ok(te, warnings, errors);
                    },
                };
                match field_lookup {
                    Some(found) => {
                        match engine.check_expected_type(found.type_id, &expected_type, span) {
                            Some(e) => errors.push(e),
                            None => {},
                        }
                        ok(
                            TypedExpression {
                                return_type: found.type_id,
                                expression: TypedExpressionVariant::StructFieldAccess {
                                    prefix: Box::new(typed_prefix),
                                    field_to_access: found,
                                    resolved_type_of_parent: parent,
                                    field_to_access_span: field_to_access.span,
                                },
                                is_constant: false,
                                span,
                            },
                            warnings,
                            errors,
                        )
                    },
                    None => {
                        errors.push(
                            CompileError::FieldNotFound {
                                field_name: field_to_access.name,
                                span,
                            },
                        );
                        let te = error_recovery_node(span, engine);
                        ok(te, warnings, errors)
                    },
                }
            },
            Expression::ArrayIndex { span, .. } => {
                errors.push(CompileError::UnimplementedRule { span });
                let te = error_recovery_node(span, engine);
                ok(te, warnings, errors)
            },
            Expression::EnumInstantiation { enum_name, variant_name, args, type_arguments, span } => {
                let decl = match namespace.find_enum(&enum_name) {
                    Some(d) => d.clone_decl(),
                    None => {
                        errors.push(
                            CompileError::EnumNotFound { name: enum_name.name.clone(), span },
                        );
                        let te = error_recovery_node(span, engine);
                        return ok(te, warnings, errors);
                    },
                };
                if type_arguments.len() != decl.type_parameters.len() {
                    errors.push(CompileError::IncorrectNumberOfTypeArguments { span });
                    let te = error_recovery_node(span, engine);
                    return ok(te, warnings, errors);
                }
                let mut inner = instantiate_enum(
                    decl,
                    variant_name,
                    args,
                    type_arguments,
                    namespace,
                    self_type,
                    engine,
                );
                warnings.append(&mut inner.warnings);
                errors.append(&mut inner.errors);
                match inner.value {
                    Some(te) => ok(te, warnings, errors),
                    None => {
                        let te = error_recovery_node(span, engine);
                        ok(te, warnings, errors)
                    },
                }
            },
        }
    }
}

/// The first field under `name` in a struct descriptor's field list,
/// copied out with its handle.
#[verifier::loop_isolation(false)]
fn find_struct_field(fields: &Vec<OwnedTypedStructField>, name: &String) -> (r: Option<
    OwnedTypedStructField,
>)
    ensures
        match r {
            Some(f) => exists|i: int|
                0 <= i < fields@.len() && (#[trigger] fields@[i]).name@ == name@ && f.name@
                    == name@ && f.type_id == fields@[i].type_id,
            None => forall|i: int| 0 <= i < fields@.len() ==> (#[trigger] fields@[i]).name@
                != name@,
        },
{
    let mut i: usize = 0;
    while i < fields.len()
        invariant
            i <= fields.len(),
            forall|j: int| 0 <= j < i as int ==> (#[trigger] fields@[j]).name@ != name@,
        decreases fields.len() - i,
    {
        if fields[i].name.eq(name) {
            return Some(
                OwnedTypedStructField { name: fields[i].name.clone(), type_id: fields[i].type_id },
            );
        }
        i = i + 1;
    }
    None
}

impl TypedCodeBlock {
    /// Checks a sequence of expressions as one block. A defect in one
    /// expression is recorded and replaced by the error-recovery
    /// placeholder; the remaining expressions are still checked, so one
    /// pass surfaces every defect, and a sound sibling is unaffected: in
    /// particular a literal sibling is always typed exactly, and a block of
    /// literals alone reports nothing.
    #[verifier::loop_isolation(false)]
    pub fn type_check(
        contents: Vec<Expression>,
        namespace: &Namespace,
        engine: &mut Engine,
        self_type: TypeId,
    ) -> (r: CompileResult<TypedCodeBlock>)
        ensures
            extends(final(engine).types(), old(engine).types()),
            r.value matches Some(block) && {
                &&& block.contents@.len() == contents@.len()
                &&& forall|i: int|
                    0 <= i < contents@.len() ==> ((#[trigger] contents@[i])
                        matches Expression::Literal { value, span } ==> {
                        let te = block.contents@[i];
                        &&& te.expression matches TypedExpressionVariant::Literal(l)
                            && literal_eq(l, value)
                        &&& te.span == span
                        &&& te.is_constant == true
                        &&& direct(final(engine).types(), te.return_type, lit_shape(value))
                    })
                &&& forall|i: int|
                    0 <= i < contents@.len() ==> ((#[trigger] contents@[i])
                        matches Expression::VariableExpression { name, span } ==> (match
                    find_symbol_spec(namespace.symbols@, name.name@) {
                        Some(t) => {
                            let te = block.contents@[i];
                            &&& te.expression
                                matches TypedExpressionVariant::VariableExpression { name: n }
                                && ident_eq(n, name)
                            &&& te.return_type == t
                            &&& te.span == span
                        },
                        None => true,
                    }))
            },
            (forall|i: int|
                0 <= i < contents@.len() ==> (#[trigger] contents@[i]) is Literal)
                ==> r.errors@.len() == 0 && r.warnings@.len() == 0,
        decreases contents,
    {
        let ghost all = contents@;
        let mut contents = contents;
        let mut warnings: Vec<CompileWarning> = Vec::new();
        let mut errors: Vec<CompileError> = Vec::new();
        let mut typed: Vec<TypedExpression> = Vec::new();
        while contents.len() > 0
            invariant
                typed@.len() + contents@.len() == all.len(),
                contents@ == all.skip(typed@.len() as int),
                extends(engine.types(), old(engine).types()),
                forall|j: int|
                    0 <= j < typed@.len() as int ==> ((#[trigger] all[j]) matches Expression::Literal {
                        value,
                        span,
                    } ==> {
                        let te = typed@[j];
                        &&& te.expression matches TypedExpressionVariant::Literal(l)
                            && literal_eq(l, value)
                        &&& te.span == span
                        &&& te.is_constant == true
                        &&& direct(engine.types(), te.return_type, lit_shape(value))
                    }),
                forall|j: int|
                    0 <= j < typed@.len() as int ==> ((#[trigger] all[j])
                        matches Expression::VariableExpression { name, span } ==> (match
                    find_symbol_spec(namespace.symbols@, name.name@) {
                        Some(t) => {
                            let te = typed@[j];
                            &&& te.expression
                                matches TypedExpressionVariant::VariableExpression { name: n }
                                && ident_eq(n, name)
                            &&& te.return_type == t
                            &&& te.span == span
                        },
                        None => true,
                    })),
                (forall|j: int|
                    0 <= j < typed@.len() as int ==> (#[trigger] all[j]) is Literal)
                    ==> errors@.len() == 0 && warnings@.len() == 0,
            decreases contents.len(),
        {
            let ghost i = typed@.len() as int;
            proof {
                assert(all.skip(i)[0] == all[i]);
                assert(all.skip(i).drop_first() =~= all.skip(i + 1));
            }
            let child = contents.remove(0);
            let ghost pre = engine.types();
            let mut checked = TypedExpression::type_check(child, namespace, engine, None, self_type);
            proof {
                assert forall|j: int|
                    0 <= j < i implies ((#[trigger] all[j]) matches Expression::Literal {
                    value,
                    span,
                } ==> {
                    let te = typed@[j];
                    &&& te.expression matches TypedExpressionVariant::Literal(l) && literal_eq(
                        l,
                        value,
                    )
                    &&& te.span == span
                    &&& te.is_constant == true
                    &&& direct(engine.types(), te.return_type, lit_shape(value))
                }) by {
                    match all[j] {
                        Expression::Literal { value, span } => {
                            lemma_direct_extend(
                                pre,
                                engine.types(),
                                typed@[j].return_type,
                                lit_shape(value),
                            );
                        },
                        _ => {},
                    }
                }
            }
            warnings.append(&mut checked.warnings);
            errors.append(&mut checked.errors);
            match checked.value {
                Some(te) => typed.push(te),
                None => {
                    proof {
                        assert(false);
                    }
                },
            }
        }
        ok(TypedCodeBlock { contents: typed }, warnings, errors)
    }
}

} // verus!
