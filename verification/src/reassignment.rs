//! Reassignments: the left-hand side is either a regular variable (or a
//! field path rooted at one), or a declared storage field. Checking one
//! selects a load or a store through the storage accessor and holds the
//! assigned value to the target's type.

use vstd::prelude::*;

use crate::error::{err, ok, CompileError, CompileResult, CompileWarning};
use crate::expression::Expression;
use crate::namespace::Namespace;
use crate::span::{ident_eq, Ident, Span};
use crate::storage::find_field_spec;
use crate::type_engine::{extends, Engine, TypeId};
use crate::typed_expression::{StoreOrLoad, TypeCheckedStorageAccess, TypedExpression, TypedExpressionVariant};

verus! {

/// What is being reassigned: a regular variable expression (possibly a
/// field path rooted at one), or a field of declared storage.
#[derive(Debug)]
pub enum ReassignmentTarget {
    VariableExpression(Expression),
    StorageField(Expression),
}

#[derive(Debug)]
pub struct Reassignment {
    /// The thing being reassigned.
    pub lhs: ReassignmentTarget,
    /// The expression whose value is assigned to the left-hand side.
    pub rhs: Expression,
    pub span: Span,
}

/// Holds a would-be left-hand side to the rule that only a variable may
/// stand there: a general expression on the left of a reassignment is
/// invalid and is reported as such.
pub fn ensure_only_var(item: Expression) -> (r: CompileResult<Expression>)
    ensures
        r.warnings@.len() == 0,
        item matches Expression::VariableExpression { .. } ==> r.value == Some(item)
            && r.errors@.len() == 0,
        !(item matches Expression::VariableExpression { .. }) ==> r.value is None
            && r.errors@.len() == 1 && (r.errors@[0] matches CompileError::InvalidExpressionOnLhs {
            span,
        } && span == item.span_of()),
{
    match &item {
        Expression::VariableExpression { .. } => ok(item, Vec::new(), Vec::new()),
        _ => {
            let span = item.span();
            let mut errors: Vec<CompileError> = Vec::new();
            errors.push(CompileError::InvalidExpressionOnLhs { span });
            err(Vec::new(), errors)
        },
    }
}

/// `result` is `base` wrapped in one subfield access per name part, in
/// order: `a` with parts `b, c` reads as `a.b.c`.
pub open spec fn subfield_chain(base: Expression, parts: Seq<Ident>, result: Expression) -> bool
    decreases parts.len(),
{
    if parts.len() == 0 {
        result == base
    } else {
        result matches Expression::SubfieldExpression { prefix, field_to_access, span } && ident_eq(
            field_to_access,
            parts.last(),
        ) && span == parts.last().span && subfield_chain(base, parts.drop_last(), *prefix)
    }
}

/// Folds a field path onto its base expression: the parent is one
/// expression, the final name the field accessed on it, so `a.b.c` is a
/// lookup of `c` on `a.b`, itself a lookup of `b` on `a`.
#[verifier::loop_isolation(false)]
pub fn build_subfield_chain(base: Expression, parts: Vec<Ident>) -> (r: Expression)
    ensures
        subfield_chain(base, parts@, r),
{
    let ghost base_spec = base;
    let ghost all = parts@;
    let ghost mut done: int = 0;
    let mut expr = base;
    let mut parts = parts;
    while parts.len() > 0
        invariant
            done + parts@.len() == all.len(),
            0 <= done,
            parts@ == all.skip(done),
            subfield_chain(base_spec, all.take(done), expr),
        decreases parts.len(),
    {
        proof {
            assert(all.skip(done)[0] == all[done]);
            assert(all.skip(done).drop_first() =~= all.skip(done + 1));
            assert(all.take(done + 1).drop_last() =~= all.take(done));
            assert(all.take(done + 1).last() == all[done]);
        }
        let part = parts.remove(0);
        let span = part.span;
        expr = Expression::SubfieldExpression {
            prefix: Box::new(expr),
            field_to_access: part,
            span,
        };
        proof {
            done = done + 1;
        }
    }
    proof {
        assert(all.take(all.len() as int) =~= all);
    }
    expr
}

/// A checked reassignment: the typed left-hand side (a variable reference,
/// field access, or storage store) and the typed right-hand side.
#[derive(Debug)]
pub struct TypedReassignment {
    pub lhs: TypedExpression,
    pub rhs: TypedExpression,
}

impl Reassignment {
    /// Checks a reassignment. A variable target must name a declared
    /// binding (or a field path rooted at one), and the assigned value is
    /// checked against the target's type. A storage-field target becomes a
    /// checked store through the storage accessor, carrying the field's
    /// stable state index; reassigning through a nested path into storage
    /// is unsupported and reported as such, and so is a target that is no
    /// variable at all.
    #[verifier::rlimit(30)]
    pub fn type_check(
        self,
        namespace: &Namespace,
        engine: &mut Engine,
        self_type: TypeId,
    ) -> (r: CompileResult<TypedReassignment>)
        ensures
            extends(final(engine).types(), old(engine).types()),
            self.lhs matches ReassignmentTarget::StorageField(target) ==> (match target {
                Expression::VariableExpression { name, span } => (match namespace.storage {
                    Option::None => r.value is None && r.errors@.len() == 1 && (r.errors@[0]
                        matches CompileError::StorageFieldNotFound { field_name, .. } && field_name@
                        == name.name@),
                    Option::Some(decl) => (match find_field_spec(decl.fields@, name.name@) {
                        Some(i) => r.value matches Some(tr) && {
                            &&& tr.lhs.expression matches TypedExpressionVariant::StorageAccess(
                                access,
                            ) && access.store_or_load == StoreOrLoad::Store && (
                            access.field_ix_and_name matches Some((ix, n)) && ix.0 == i && n.name@
                                == name.name@)
                            &&& tr.lhs.return_type == decl.fields@[i].type_id
                        },
                        None => r.value is None && exists|j: int|
                            0 <= j < r.errors@.len() && ((#[trigger] r.errors@[j])
                                matches CompileError::StorageFieldNotFound { field_name, .. }
                                && field_name@ == name.name@),
                    }),
                }),
                Expression::SubfieldExpression { span, .. } => r.value is None && r.errors@.len()
                    == 1 && (r.errors@[0] matches CompileError::NestedStorageAccess { span: sp }
                    && sp == span),
                _ => r.value is None,
            }),
            self.lhs matches ReassignmentTarget::VariableExpression(target) ==> (!(target
                matches Expression::VariableExpression { .. }) && !(target
                matches Expression::SubfieldExpression { .. }) ==> r.value is None
                && r.errors@.len() == 1 && (r.errors@[0]
                matches CompileError::InvalidExpressionOnLhs { span } && span
                == target.span_of())),
    {
        let mut warnings: Vec<CompileWarning> = Vec::new();
        let mut errors: Vec<CompileError> = Vec::new();
        match self.lhs {
            ReassignmentTarget::VariableExpression(target) => {
                match target {
                    Expression::VariableExpression { .. } | Expression::SubfieldExpression {
                        ..
                    } => {
                        let mut checked_lhs = TypedExpression::type_check(
                            target,
                            namespace,
                            engine,
                            None,
                            self_type,
                        );
                        warnings.append(&mut checked_lhs.warnings);
                        errors.append(&mut checked_lhs.errors);
                        let typed_lhs = match checked_lhs.value {
                            Some(te) => te,
                            None => {
                                proof {
                                    assert(false);
                                }
                                return err(warnings, errors);
                            },
                        };
                        let mut checked_rhs = TypedExpression::type_check(
                            self.rhs,
                            namespace,
                            engine,
                            Some(typed_lhs.return_type),
                            self_type,
                        );
                        warnings.append(&mut checked_rhs.warnings);
                        errors.append(&mut checked_rhs.errors);
                        match checked_rhs.value {
                            Some(typed_rhs) => ok(
                                TypedReassignment { lhs: typed_lhs, rhs: typed_rhs },
                                warnings,
                                errors,
                            ),
                            None => {
                                proof {
                                    assert(false);
                                }
                                err(warnings, errors)
                            },
                        }
                    },
                    _ => {
                        let span = target.span();
                        errors.push(CompileError::InvalidExpressionOnLhs { span });
                        err(warnings, errors)
                    },
                }
            },
            ReassignmentTarget::StorageField(target) => {
                match target {
                    Expression::VariableExpression { name, span } => {
                        let decl = match &namespace.storage {
                            Some(d) => d,
                            None => {
                                errors.push(
                                    CompileError::StorageFieldNotFound {
                                        field_name: name.name,
                                        span,
                                    },
                                );
                                return err(warnings, errors);
                            },
                        };
                        let mut applied = decl.apply_storage_store(name);
                        warnings.append(&mut applied.warnings);
                        errors.append(&mut applied.errors);
                        match applied.value {
                            Some((access, field_type)) => {
                                let typed_lhs = TypedExpression {
                                    expression: TypedExpressionVariant::StorageAccess(access),
                                    return_type: field_type,
                                    is_constant: false,
                                    span,
                                };
                                let mut checked_rhs = TypedExpression::type_check(
                                    self.rhs,
                                    namespace,
                                    engine,
                                    Some(field_type),
                                    self_type,
                                );
                                warnings.append(&mut checked_rhs.warnings);
                                errors.append(&mut checked_rhs.errors);
                                match checked_rhs.value {
                                    Some(typed_rhs) => ok(
                                        TypedReassignment { lhs: typed_lhs, rhs: typed_rhs },
                                        warnings,
                                        errors,
                                    ),
                                    None => {
                                        proof {
                                            assert(false);
                                        }
                                        err(warnings, errors)
                                    },
                                }
                            },
                            None => err(warnings, errors),
                        }
                    },
                    Expression::SubfieldExpression { span, .. } => {
                        errors.push(CompileError::NestedStorageAccess { span });
                        err(warnings, errors)
                    },
                    _ => {
                        let span = target.span();
                        errors.push(CompileError::InvalidExpressionOnLhs { span });
                        err(warnings, errors)
                    },
                }
            },
        }
    }
}

} // verus!
