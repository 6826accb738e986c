use sway_core::enum_instantiation::{check_instantiator_arity, instantiate_enum, InstantiatorArity};
use sway_core::error::CompileError;
use sway_core::expression::Expression;
use sway_core::literal::Literal;
use sway_core::namespace::Namespace;
use sway_core::resolved_type::ResolvedType;
use sway_core::span::{Ident, Span};
use sway_core::type_engine::{Engine, IntegerBits, TypeId, TypeInfo};
use sway_core::typed_enum::{TypedEnumDeclaration, TypedEnumVariant};
use sway_core::typed_expression::{TypedCodeBlock, TypedExpression, TypedExpressionVariant};

fn sp(a: usize, b: usize) -> Span {
    Span { start: a, end: b }
}

fn ident(name: &str) -> Ident {
    Ident { name: String::from(name), span: sp(0, name.len()) }
}

/// An enum `Result { Ok(u64), Err(()) }`, typed into a fresh registry.
fn result_decl(engine: &mut Engine) -> TypedEnumDeclaration {
    let u64_id = engine.insert(TypeInfo::UnsignedInteger(IntegerBits::SixtyFour));
    let unit_id = engine.insert(TypeInfo::Unit);
    TypedEnumDeclaration {
        name: ident("Result"),
        type_parameters: Vec::new(),
        variants: vec![
            TypedEnumVariant { name: ident("Ok"), type_id: u64_id, tag: 0, span: sp(1, 2) },
            TypedEnumVariant { name: ident("Err"), type_id: unit_id, tag: 1, span: sp(3, 4) },
        ],
        span: sp(0, 10),
    }
}

fn instantiate(
    engine: &mut Engine,
    variant: &str,
    args: Vec<Expression>,
) -> sway_core::error::CompileResult<TypedExpression> {
    let decl = result_decl(engine);
    let ns = Namespace::new();
    instantiate_enum(decl, ident(variant), args, Vec::new(), &ns, TypeId(0), engine)
}

#[test]
fn result_ok_with_payload_succeeds() {
    let mut engine = Engine::new();
    let args = vec![Expression::Literal { value: Literal::U64(5), span: sp(7, 8) }];
    let r = instantiate(&mut engine, "Ok", args);
    assert!(r.errors.is_empty());
    let te = r.value.expect("instantiation should succeed");
    match te.expression {
        TypedExpressionVariant::EnumInstantiation { tag, contents, variant_name, .. } => {
            assert_eq!(tag, 0);
            assert_eq!(variant_name.name, "Ok");
            let payload = contents.expect("a payload should be carried");
            match payload.expression {
                TypedExpressionVariant::Literal(Literal::U64(v)) => assert_eq!(v, 5),
                other => panic!("unexpected payload form: {:?}", other),
            }
            let shape = engine.resolve(payload.return_type);
            assert!(matches!(shape, ResolvedType::UnsignedInteger(IntegerBits::SixtyFour)));
        },
        other => panic!("unexpected node: {:?}", other),
    }
}

#[test]
fn result_err_without_payload_succeeds() {
    let mut engine = Engine::new();
    let r = instantiate(&mut engine, "Err", Vec::new());
    assert!(r.errors.is_empty());
    let te = r.value.expect("instantiation should succeed");
    match te.expression {
        TypedExpressionVariant::EnumInstantiation { tag, contents, .. } => {
            assert_eq!(tag, 1);
            assert!(contents.is_none());
        },
        other => panic!("unexpected node: {:?}", other),
    }
}

#[test]
fn result_ok_without_payload_is_missing_instantiator() {
    let mut engine = Engine::new();
    let r = instantiate(&mut engine, "Ok", Vec::new());
    assert!(r.value.is_none());
    assert_eq!(r.errors.len(), 1);
    assert!(matches!(r.errors[0], CompileError::MissingEnumInstantiator { .. }));
}

#[test]
fn unit_variant_with_one_argument_is_unnecessary() {
    let mut engine = Engine::new();
    let args = vec![Expression::Literal { value: Literal::U64(1), span: sp(7, 8) }];
    let r = instantiate(&mut engine, "Err", args);
    assert!(r.value.is_none());
    assert_eq!(r.errors.len(), 1);
    assert!(matches!(r.errors[0], CompileError::UnnecessaryEnumInstantiator { .. }));
}

#[test]
fn unit_variant_with_two_arguments_is_too_many() {
    let mut engine = Engine::new();
    let args = vec![
        Expression::Literal { value: Literal::U64(1), span: sp(7, 8) },
        Expression::Literal { value: Literal::U64(2), span: sp(9, 10) },
    ];
    let r = instantiate(&mut engine, "Err", args);
    assert!(r.value.is_none());
    assert_eq!(r.errors.len(), 1);
    assert!(matches!(r.errors[0], CompileError::MoreThanOneEnumInstantiator { .. }));
}

#[test]
fn payload_variant_with_two_arguments_is_too_many() {
    let mut engine = Engine::new();
    let args = vec![
        Expression::Literal { value: Literal::U64(1), span: sp(7, 8) },
        Expression::Literal { value: Literal::U64(2), span: sp(9, 10) },
    ];
    let r = instantiate(&mut engine, "Ok", args);
    assert!(r.value.is_none());
    assert_eq!(r.errors.len(), 1);
    match &r.errors[0] {
        CompileError::MoreThanOneEnumInstantiator { ty, .. } => assert_eq!(ty, "u64"),
        other => panic!("unexpected error: {:?}", other),
    }
}

#[test]
fn payload_argument_of_wrong_type_reports_mismatch() {
    let mut engine = Engine::new();
    let args = vec![Expression::Literal { value: Literal::Boolean(true), span: sp(7, 8) }];
    let r = instantiate(&mut engine, "Ok", args);
    // The node is still produced for further diagnostics; the mismatch is
    // recorded.
    assert!(r.value.is_some());
    assert!(r.errors.iter().any(|e| matches!(e, CompileError::TypeMismatch { .. })));
}

#[test]
fn unknown_variant_is_reported() {
    let mut engine = Engine::new();
    let r = instantiate(&mut engine, "Oops", Vec::new());
    assert!(r.value.is_none());
    assert_eq!(r.errors.len(), 1);
    match &r.errors[0] {
        CompileError::UnknownEnumVariant { enum_name, variant_name, .. } => {
            assert_eq!(enum_name, "Result");
            assert_eq!(variant_name, "Oops");
        },
        other => panic!("unexpected error: {:?}", other),
    }
}

#[test]
fn arity_policy_is_total() {
    assert!(matches!(check_instantiator_arity(0, true), InstantiatorArity::NoPayload));
    assert!(matches!(check_instantiator_arity(0, false), InstantiatorArity::MissingInstantiator));
    assert!(matches!(check_instantiator_arity(1, true), InstantiatorArity::UnnecessaryInstantiator));
    assert!(matches!(check_instantiator_arity(1, false), InstantiatorArity::SingleArgument));
    assert!(matches!(check_instantiator_arity(2, true), InstantiatorArity::TooManyInstantiators));
    assert!(matches!(check_instantiator_arity(2, false), InstantiatorArity::TooManyInstantiators));
    assert!(matches!(check_instantiator_arity(7, true), InstantiatorArity::TooManyInstantiators));
}

#[test]
fn error_in_one_instantiation_leaves_sibling_untouched() {
    let mut engine = Engine::new();
    let decl = result_decl(&mut engine);
    let mut ns = Namespace::new();
    ns.insert_enum(decl);
    // `Result::Ok()` without its payload is malformed; the literal sibling
    // in the same block is still typed, and no spurious error is added.
    let block = vec![
        Expression::EnumInstantiation {
            enum_name: ident("Result"),
            variant_name: ident("Ok"),
            args: Vec::new(),
            type_arguments: Vec::new(),
            span: sp(0, 5),
        },
        Expression::Literal { value: Literal::U64(7), span: sp(6, 7) },
    ];
    let r = TypedCodeBlock::type_check(block, &ns, &mut engine, TypeId(0));
    assert_eq!(r.errors.len(), 1);
    assert!(matches!(r.errors[0], CompileError::MissingEnumInstantiator { .. }));
    let typed = r.value.expect("the block always carries a value");
    assert_eq!(typed.contents.len(), 2);
    match &typed.contents[1].expression {
        TypedExpressionVariant::Literal(Literal::U64(v)) => assert_eq!(*v, 7),
        other => panic!("sibling was disturbed: {:?}", other),
    }
}

#[test]
fn error_in_one_instantiation_leaves_variable_sibling_untouched() {
    let mut engine = Engine::new();
    let decl = result_decl(&mut engine);
    let bool_id = engine.insert(TypeInfo::Boolean);
    let mut ns = Namespace::new();
    ns.insert_enum(decl);
    ns.insert_symbol(ident("flag"), bool_id);
    let block = vec![
        Expression::EnumInstantiation {
            enum_name: ident("Result"),
            variant_name: ident("Nope"),
            args: Vec::new(),
            type_arguments: Vec::new(),
            span: sp(0, 5),
        },
        Expression::VariableExpression { name: ident("flag"), span: sp(6, 10) },
    ];
    let r = TypedCodeBlock::type_check(block, &ns, &mut engine, TypeId(0));
    assert_eq!(r.errors.len(), 1);
    assert!(matches!(r.errors[0], CompileError::UnknownEnumVariant { .. }));
    let typed = r.value.expect("the block always carries a value");
    assert_eq!(typed.contents[1].return_type, bool_id);
    assert!(matches!(
        typed.contents[1].expression,
        TypedExpressionVariant::VariableExpression { .. }
    ));
}

#[test]
fn enum_not_found_is_reported() {
    let mut engine = Engine::new();
    let ns = Namespace::new();
    let expr = Expression::EnumInstantiation {
        enum_name: ident("Ghostly"),
        variant_name: ident("Ok"),
        args: Vec::new(),
        type_arguments: Vec::new(),
        span: sp(0, 5),
    };
    let r = TypedExpression::type_check(expr, &ns, &mut engine, None, TypeId(0));
    assert!(r.value.is_some());
    assert_eq!(r.errors.len(), 1);
    assert!(matches!(r.errors[0], CompileError::EnumNotFound { .. }));
}

#[test]
fn wrong_number_of_type_arguments_is_reported() {
    let mut engine = Engine::new();
    let decl = result_decl(&mut engine);
    let mut ns = Namespace::new();
    ns.insert_enum(decl);
    let extra = engine.insert(TypeInfo::Boolean);
    let expr = Expression::EnumInstantiation {
        enum_name: ident("Result"),
        variant_name: ident("Ok"),
        args: Vec::new(),
        type_arguments: vec![extra],
        span: sp(0, 5),
    };
    let r = TypedExpression::type_check(expr, &ns, &mut engine, None, TypeId(0));
    assert!(r.value.is_some());
    assert_eq!(r.errors.len(), 1);
    assert!(matches!(r.errors[0], CompileError::IncorrectNumberOfTypeArguments { .. }));
}
