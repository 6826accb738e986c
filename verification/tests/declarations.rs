use sway_core::error::{CompileError, Warning};
use sway_core::enum_declaration::EnumDeclaration;
use sway_core::expression::Expression;
use sway_core::fn_decl::{
    convert_fn_decl_to_asm, AsmNamespace, RegisterSequencer, TypedFunctionDeclaration,
};
use sway_core::inline_asm::{AsmExpression, AsmRegisterDeclaration};
use sway_core::literal::Literal;
use sway_core::namespace::Namespace;
use sway_core::array::{array_repeat_descriptor, SemicolonToken, Spanned};
use sway_core::span::{join_spans, Ident, Span};
use sway_core::type_engine::{Engine, IntegerBits, TypeId, TypeInfo};
use sway_core::typed_expression::{AsmRegister, TypedCodeBlock, TypedExpression, TypedExpressionVariant};

fn sp(a: usize, b: usize) -> Span {
    Span { start: a, end: b }
}

fn ident(name: &str) -> Ident {
    Ident { name: String::from(name), span: sp(0, name.len()) }
}

#[test]
fn tags_follow_declaration_order() {
    let built = EnumDeclaration::new(
        ident("Shape"),
        Vec::new(),
        vec![
            (ident("Circle"), TypeInfo::Unit, sp(0, 1)),
            (ident("Square"), TypeInfo::Unit, sp(2, 3)),
            (ident("Triangle"), TypeInfo::Unit, sp(4, 5)),
        ],
        sp(0, 10),
    );
    let decl = built.value.expect("declarations always build");
    for (i, v) in decl.variants.iter().enumerate() {
        assert_eq!(v.tag, i);
    }
    // Re-typing the same declaration twice yields identical tags.
    let mut engine = Engine::new();
    let self_type = engine.insert(TypeInfo::Contract);
    let t1 = decl.to_typed_decl(&mut engine, self_type);
    let t2 = decl.to_typed_decl(&mut engine, self_type);
    for i in 0..3 {
        assert_eq!(t1.variants[i].tag, i);
        assert_eq!(t1.variants[i].tag, t2.variants[i].tag);
    }
}

#[test]
fn class_case_names_raise_no_warning() {
    let built = EnumDeclaration::new(
        ident("FooBar"),
        Vec::new(),
        vec![(ident("BazQux"), TypeInfo::Unit, sp(0, 1))],
        sp(0, 10),
    );
    assert!(built.warnings.is_empty());
    assert!(built.errors.is_empty());
}

#[test]
fn non_class_case_names_are_advised() {
    let built = EnumDeclaration::new(
        ident("foo_bar"),
        Vec::new(),
        vec![(ident("baz_qux"), TypeInfo::Unit, sp(0, 1))],
        sp(0, 10),
    );
    // Advisory only: the declaration still builds, nothing blocks.
    assert!(built.errors.is_empty());
    assert!(built.value.is_some());
    assert_eq!(built.warnings.len(), 2);
    assert!(matches!(
        built.warnings[0].warning_content,
        Warning::NonClassCaseEnumName { .. }
    ));
    assert!(matches!(
        built.warnings[1].warning_content,
        Warning::NonClassCaseEnumVariantName { .. }
    ));
}

#[test]
fn typing_binds_self_placeholder() {
    let mut engine = Engine::new();
    let self_type = engine.insert(TypeInfo::Contract);
    let built = EnumDeclaration::new(
        ident("Wrapper"),
        Vec::new(),
        vec![(ident("Own"), TypeInfo::SelfType, sp(0, 1))],
        sp(0, 10),
    );
    let decl = built.value.unwrap();
    let typed = decl.to_typed_decl(&mut engine, self_type);
    assert_eq!(typed.variants[0].type_id, self_type);
}

#[test]
fn inline_asm_return_type_rule() {
    let declared = AsmExpression::new(
        Vec::new(),
        Vec::new(),
        None,
        Some(TypeInfo::Boolean),
        sp(0, 1),
    );
    assert!(matches!(declared.return_type, TypeInfo::Boolean));

    let implicit = AsmExpression::new(
        vec![AsmRegisterDeclaration { name: ident("r1"), initializer: None }],
        Vec::new(),
        Some((AsmRegister { name: String::from("r1") }, sp(0, 1))),
        None,
        sp(0, 1),
    );
    assert!(matches!(
        implicit.return_type,
        TypeInfo::UnsignedInteger(IntegerBits::SixtyFour)
    ));

    let silent = AsmExpression::new(Vec::new(), Vec::new(), None, None, sp(0, 1));
    assert!(matches!(silent.return_type, TypeInfo::Unit));
}

#[test]
fn array_repeat_descriptor_spans() {
    let elem = Expression::Literal { value: Literal::U64(0), span: sp(1, 2) };
    let len = Expression::Literal { value: Literal::U64(8), span: sp(4, 5) };
    let d = array_repeat_descriptor(elem, SemicolonToken { span: sp(3, 4) }, len);
    assert_eq!(d.span(), sp(1, 5));
    assert_eq!(d.semicolon_token.span, sp(3, 4));
}

#[test]
fn join_spans_behavior() {
    assert_eq!(join_spans(sp(1, 3), sp(5, 9)), sp(1, 9));
    assert_eq!(join_spans(sp(5, 9), sp(1, 3)), sp(1, 9));
}

#[test]
fn codegen_stub_emits_nothing() {
    let decl = TypedFunctionDeclaration {
        name: ident("main"),
        body: TypedCodeBlock { contents: Vec::new() },
    };
    let mut names = AsmNamespace { bound: Vec::new() };
    let mut registers = RegisterSequencer { next: 0 };
    let r = convert_fn_decl_to_asm(&decl, &mut names, &mut registers);
    assert!(r.errors.is_empty());
    assert!(r.warnings.is_empty());
    assert!(r.value.unwrap().is_empty());
}

#[test]
fn unknown_variable_expression_recovers() {
    let mut engine = Engine::new();
    let ns = Namespace::new();
    let expr = Expression::VariableExpression { name: ident("nowhere"), span: sp(0, 7) };
    let r = TypedExpression::type_check(expr, &ns, &mut engine, None, TypeId(0));
    assert_eq!(r.errors.len(), 1);
    assert!(matches!(r.errors[0], CompileError::UnknownVariable { .. }));
    let te = r.value.expect("checking always recovers with a node");
    match te.expression {
        TypedExpressionVariant::Tuple { fields } => assert!(fields.is_empty()),
        other => panic!("unexpected recovery node: {:?}", other),
    }
}

#[test]
fn array_index_is_unimplemented() {
    let mut engine = Engine::new();
    let ns = Namespace::new();
    let expr = Expression::ArrayIndex {
        prefix: Box::new(Expression::VariableExpression { name: ident("a"), span: sp(0, 1) }),
        index: Box::new(Expression::Literal { value: Literal::U64(0), span: sp(2, 3) }),
        span: sp(0, 4),
    };
    let r = TypedExpression::type_check(expr, &ns, &mut engine, None, TypeId(0));
    assert_eq!(r.errors.len(), 1);
    assert!(matches!(r.errors[0], CompileError::UnimplementedRule { .. }));
}

#[test]
fn literal_with_wrong_expectation_reports_mismatch() {
    let mut engine = Engine::new();
    let ns = Namespace::new();
    let bool_id = engine.insert(TypeInfo::Boolean);
    let expr = Expression::Literal { value: Literal::U64(3), span: sp(0, 1) };
    let r = TypedExpression::type_check(expr, &ns, &mut engine, Some(bool_id), TypeId(0));
    assert!(r.value.is_some());
    assert_eq!(r.errors.len(), 1);
    match &r.errors[0] {
        CompileError::TypeMismatch { expected, received, .. } => {
            assert_eq!(expected, "bool");
            assert_eq!(received, "u64");
        },
        other => panic!("unexpected error: {:?}", other),
    }
}

#[test]
fn literal_with_right_expectation_is_silent() {
    let mut engine = Engine::new();
    let ns = Namespace::new();
    let u64_id = engine.insert(TypeInfo::UnsignedInteger(IntegerBits::SixtyFour));
    let expr = Expression::Literal { value: Literal::U64(3), span: sp(0, 1) };
    let r = TypedExpression::type_check(expr, &ns, &mut engine, Some(u64_id), TypeId(0));
    assert!(r.errors.is_empty());
}

#[test]
fn string_literal_types_as_sized_str() {
    let mut engine = Engine::new();
    let ns = Namespace::new();
    let expr = Expression::Literal {
        value: Literal::String(String::from("abcde")),
        span: sp(0, 5),
    };
    let r = TypedExpression::type_check(expr, &ns, &mut engine, None, TypeId(0));
    let te = r.value.unwrap();
    match engine.resolve(te.return_type) {
        sway_core::resolved_type::ResolvedType::Str(n) => assert_eq!(n, 5),
        other => panic!("unexpected type: {:?}", other),
    }
}

#[test]
fn empty_tuple_types_as_unit() {
    let mut engine = Engine::new();
    let ns = Namespace::new();
    let expr = Expression::Tuple { fields: Vec::new(), span: sp(0, 2) };
    let r = TypedExpression::type_check(expr, &ns, &mut engine, None, TypeId(0));
    assert!(r.errors.is_empty());
    let te = r.value.unwrap();
    assert!(matches!(
        engine.resolve(te.return_type),
        sway_core::resolved_type::ResolvedType::Unit
    ));
}
