use sway_core::error::CompileError;
use sway_core::expression::Expression;
use sway_core::literal::Literal;
use sway_core::namespace::Namespace;
use sway_core::reassignment::{
    build_subfield_chain, ensure_only_var, Reassignment, ReassignmentTarget,
};
use sway_core::span::{Ident, Span};
use sway_core::storage::{TypedStorageDeclaration, TypedStorageField};
use sway_core::type_engine::{Engine, IntegerBits, OwnedTypedStructField, TypeId, TypeInfo};
use sway_core::typed_expression::{StoreOrLoad, TypedExpression, TypedExpressionVariant};

fn sp(a: usize, b: usize) -> Span {
    Span { start: a, end: b }
}

fn ident(name: &str) -> Ident {
    Ident { name: String::from(name), span: sp(0, name.len()) }
}

fn unit_literal(engine: &mut Engine) -> TypedExpression {
    let tid = engine.insert(TypeInfo::Unit);
    TypedExpression {
        expression: TypedExpressionVariant::Tuple { fields: Vec::new() },
        return_type: tid,
        is_constant: false,
        span: sp(0, 0),
    }
}

/// Storage with fields `owner: b256`, `balance: u64`, `paused: bool`.
fn storage_decl(engine: &mut Engine) -> TypedStorageDeclaration {
    let b256_id = engine.insert(TypeInfo::B256);
    let u64_id = engine.insert(TypeInfo::UnsignedInteger(IntegerBits::SixtyFour));
    let bool_id = engine.insert(TypeInfo::Boolean);
    let init1 = unit_literal(engine);
    let init2 = unit_literal(engine);
    let init3 = unit_literal(engine);
    TypedStorageDeclaration::new(
        vec![
            TypedStorageField::new(ident("owner"), b256_id, init1),
            TypedStorageField::new(ident("balance"), u64_id, init2),
            TypedStorageField::new(ident("paused"), bool_id, init3),
        ],
        sp(0, 30),
    )
}

#[test]
fn storage_indices_are_positions() {
    let mut engine = Engine::new();
    let decl = storage_decl(&mut engine);
    let names = ["owner", "balance", "paused"];
    for (i, name) in names.iter().enumerate() {
        let loaded = decl.apply_storage_load(ident(name));
        let (access, _) = loaded.value.expect("declared field must be found");
        assert_eq!(access.field_ix().unwrap().0, i);
        assert!(matches!(access.mode(), StoreOrLoad::Load));
        assert_eq!(access.field_name().unwrap().name, *name);

        let stored = decl.apply_storage_store(ident(name));
        let (access, _) = stored.value.expect("declared field must be found");
        assert_eq!(access.field_ix().unwrap().0, i);
        assert!(matches!(access.mode(), StoreOrLoad::Store));
    }
}

#[test]
fn missing_storage_field_is_reported() {
    let mut engine = Engine::new();
    let decl = storage_decl(&mut engine);
    let r = decl.apply_storage_load(ident("missing"));
    assert!(r.value.is_none());
    assert_eq!(r.errors.len(), 1);
    match &r.errors[0] {
        CompileError::StorageFieldNotFound { field_name, .. } => {
            assert_eq!(field_name, "missing")
        },
        other => panic!("unexpected error: {:?}", other),
    }
}

#[test]
fn storage_fields_as_struct_fields() {
    let mut engine = Engine::new();
    let decl = storage_decl(&mut engine);
    let fields = decl.fields_as_owned_typed_struct_fields();
    assert_eq!(fields.len(), 3);
    assert_eq!(fields[1].name, "balance");
    assert_eq!(fields[1].type_id, decl.fields[1].type_id);
}

#[test]
fn storage_reassignment_builds_store() {
    let mut engine = Engine::new();
    let decl = storage_decl(&mut engine);
    let mut ns = Namespace::new();
    ns.storage = Some(decl);
    let reassignment = Reassignment {
        lhs: ReassignmentTarget::StorageField(Expression::VariableExpression {
            name: ident("balance"),
            span: sp(0, 7),
        }),
        rhs: Expression::Literal { value: Literal::U64(5), span: sp(10, 11) },
        span: sp(0, 11),
    };
    let r = reassignment.type_check(&ns, &mut engine, TypeId(0));
    assert!(r.errors.is_empty(), "unexpected errors: {:?}", r.errors);
    let typed = r.value.expect("the store should check");
    match &typed.lhs.expression {
        TypedExpressionVariant::StorageAccess(access) => {
            assert_eq!(access.field_ix().unwrap().0, 1);
            assert!(matches!(access.mode(), StoreOrLoad::Store));
        },
        other => panic!("unexpected left-hand side: {:?}", other),
    }
}

#[test]
fn nested_storage_reassignment_is_unsupported() {
    let mut engine = Engine::new();
    let decl = storage_decl(&mut engine);
    let mut ns = Namespace::new();
    ns.storage = Some(decl);
    let nested = build_subfield_chain(
        Expression::VariableExpression { name: ident("owner"), span: sp(0, 5) },
        vec![ident("inner")],
    );
    let reassignment = Reassignment {
        lhs: ReassignmentTarget::StorageField(nested),
        rhs: Expression::Literal { value: Literal::U64(5), span: sp(10, 11) },
        span: sp(0, 11),
    };
    let r = reassignment.type_check(&ns, &mut engine, TypeId(0));
    assert!(r.value.is_none());
    assert_eq!(r.errors.len(), 1);
    assert!(matches!(r.errors[0], CompileError::NestedStorageAccess { .. }));
}

#[test]
fn variable_reassignment_checks_value_type() {
    let mut engine = Engine::new();
    let u64_id = engine.insert(TypeInfo::UnsignedInteger(IntegerBits::SixtyFour));
    let mut ns = Namespace::new();
    ns.insert_symbol(ident("x"), u64_id);
    let good = Reassignment {
        lhs: ReassignmentTarget::VariableExpression(Expression::VariableExpression {
            name: ident("x"),
            span: sp(0, 1),
        }),
        rhs: Expression::Literal { value: Literal::U64(7), span: sp(4, 5) },
        span: sp(0, 5),
    };
    let r = good.type_check(&ns, &mut engine, TypeId(0));
    assert!(r.errors.is_empty());
    assert!(r.value.is_some());

    let bad = Reassignment {
        lhs: ReassignmentTarget::VariableExpression(Expression::VariableExpression {
            name: ident("x"),
            span: sp(0, 1),
        }),
        rhs: Expression::Literal { value: Literal::Boolean(true), span: sp(4, 8) },
        span: sp(0, 8),
    };
    let r = bad.type_check(&ns, &mut engine, TypeId(0));
    assert!(r.errors.iter().any(|e| matches!(e, CompileError::TypeMismatch { .. })));
}

#[test]
fn unknown_variable_reassignment_recovers_without_cascade() {
    let mut engine = Engine::new();
    let ns = Namespace::new();
    let reassignment = Reassignment {
        lhs: ReassignmentTarget::VariableExpression(Expression::VariableExpression {
            name: ident("ghost_binding"),
            span: sp(0, 1),
        }),
        rhs: Expression::Literal { value: Literal::U64(7), span: sp(4, 5) },
        span: sp(0, 5),
    };
    let r = reassignment.type_check(&ns, &mut engine, TypeId(0));
    // One defect, one report: the recovery placeholder must not provoke a
    // second, spurious mismatch on the right-hand side.
    assert_eq!(r.errors.len(), 1);
    assert!(matches!(r.errors[0], CompileError::UnknownVariable { .. }));
}

#[test]
fn only_variables_allowed_on_lhs() {
    let variable = Expression::VariableExpression { name: ident("x"), span: sp(0, 1) };
    let kept = ensure_only_var(variable);
    assert!(kept.errors.is_empty());
    assert!(matches!(
        kept.value,
        Some(Expression::VariableExpression { .. })
    ));

    let literal = Expression::Literal { value: Literal::U64(1), span: sp(0, 1) };
    let refused = ensure_only_var(literal);
    assert!(refused.value.is_none());
    assert!(matches!(refused.errors[0], CompileError::InvalidExpressionOnLhs { .. }));
}

#[test]
fn subfield_chain_builds_nested_accesses() {
    let base = Expression::VariableExpression { name: ident("a"), span: sp(0, 1) };
    let chained = build_subfield_chain(base, vec![ident("b"), ident("c")]);
    match chained {
        Expression::SubfieldExpression { prefix, field_to_access, .. } => {
            assert_eq!(field_to_access.name, "c");
            match *prefix {
                Expression::SubfieldExpression { prefix: inner, field_to_access: mid, .. } => {
                    assert_eq!(mid.name, "b");
                    assert!(matches!(
                        *inner,
                        Expression::VariableExpression { .. }
                    ));
                },
                other => panic!("unexpected inner: {:?}", other),
            }
        },
        other => panic!("unexpected chain: {:?}", other),
    }
}

#[test]
fn subfield_access_type_checks() {
    let mut engine = Engine::new();
    let u64_id = engine.insert(TypeInfo::UnsignedInteger(IntegerBits::SixtyFour));
    let point = engine.insert(TypeInfo::Struct {
        name: String::from("Point"),
        fields: vec![OwnedTypedStructField { name: String::from("x"), type_id: u64_id }],
    });
    let mut ns = Namespace::new();
    ns.insert_symbol(ident("p"), point);
    let access = Expression::SubfieldExpression {
        prefix: Box::new(Expression::VariableExpression { name: ident("p"), span: sp(0, 1) }),
        field_to_access: ident("x"),
        span: sp(0, 3),
    };
    let r = TypedExpression::type_check(access, &ns, &mut engine, None, TypeId(0));
    assert!(r.errors.is_empty(), "unexpected errors: {:?}", r.errors);
    let te = r.value.unwrap();
    assert_eq!(te.return_type, u64_id);
    assert!(matches!(
        te.expression,
        TypedExpressionVariant::StructFieldAccess { .. }
    ));
}

#[test]
fn field_not_found_is_reported() {
    let mut engine = Engine::new();
    let point = engine.insert(TypeInfo::Struct { name: String::from("Point"), fields: vec![] });
    let mut ns = Namespace::new();
    ns.insert_symbol(ident("p"), point);
    let access = Expression::SubfieldExpression {
        prefix: Box::new(Expression::VariableExpression { name: ident("p"), span: sp(0, 1) }),
        field_to_access: ident("missing"),
        span: sp(0, 3),
    };
    let r = TypedExpression::type_check(access, &ns, &mut engine, None, TypeId(0));
    assert!(r.errors.iter().any(|e| matches!(e, CompileError::FieldNotFound { .. })));
}

#[test]
fn field_access_on_non_struct_is_reported() {
    let mut engine = Engine::new();
    let u64_id = engine.insert(TypeInfo::UnsignedInteger(IntegerBits::SixtyFour));
    let mut ns = Namespace::new();
    ns.insert_symbol(ident("n"), u64_id);
    let access = Expression::SubfieldExpression {
        prefix: Box::new(Expression::VariableExpression { name: ident("n"), span: sp(0, 1) }),
        field_to_access: ident("x"),
        span: sp(0, 3),
    };
    let r = TypedExpression::type_check(access, &ns, &mut engine, None, TypeId(0));
    assert!(r.errors.iter().any(|e| matches!(e, CompileError::FieldAccessOnNonStruct { .. })));
}
