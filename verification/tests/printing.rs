use sway_core::decimal::{u64_to_string, usize_to_string};
use sway_core::literal::Literal;
use sway_core::span::{Ident, Span};
use sway_core::storage::StateIndex;
use sway_core::type_engine::{Engine, IntegerBits, OwnedTypedStructField, TypeInfo};
use sway_core::typed_enum::{TypedEnumDeclaration, TypedEnumVariant};
use sway_core::typed_expression::{
    TypeCheckedStorageAccess, TypedCodeBlock, TypedExpression, TypedExpressionVariant,
    TypedWhileLoop,
};

fn sp(a: usize, b: usize) -> Span {
    Span { start: a, end: b }
}

fn ident(name: &str) -> Ident {
    Ident { name: String::from(name), span: sp(0, name.len()) }
}

fn lit(value: Literal, engine: &mut Engine) -> TypedExpression {
    let tid = engine.insert(TypeInfo::UnsignedInteger(IntegerBits::SixtyFour));
    TypedExpression {
        expression: TypedExpressionVariant::Literal(value),
        return_type: tid,
        is_constant: true,
        span: sp(0, 1),
    }
}

#[test]
fn decimal_rendering() {
    assert_eq!(u64_to_string(0), "0");
    assert_eq!(u64_to_string(7), "7");
    assert_eq!(u64_to_string(1234567890), "1234567890");
    assert_eq!(u64_to_string(u64::MAX), "18446744073709551615");
    assert_eq!(usize_to_string(42), "42");
}

#[test]
fn literal_pretty_prints_value() {
    let engine = Engine::new();
    let v = TypedExpressionVariant::Literal(Literal::U64(42));
    assert_eq!(v.pretty_print(&engine), "literal 42");
    let s = TypedExpressionVariant::Literal(Literal::String(String::from("hello")));
    assert_eq!(s.pretty_print(&engine), "literal hello");
    let b = TypedExpressionVariant::Literal(Literal::Boolean(true));
    assert_eq!(b.pretty_print(&engine), "literal true");
}

#[test]
fn b256_literal_pretty_print() {
    let engine = Engine::new();
    let mut bytes = [0u8; 32];
    bytes[0] = 1;
    bytes[31] = 9;
    let v = TypedExpressionVariant::Literal(Literal::B256(bytes));
    let printed = v.pretty_print(&engine);
    assert!(printed.starts_with("literal 1, 0, 0,"));
    assert!(printed.ends_with(", 9"));
    // 32 byte values joined by commas.
    assert_eq!(printed.matches(", ").count(), 31);
}

#[test]
fn variable_and_tuple_pretty_print() {
    let mut engine = Engine::new();
    let v = TypedExpressionVariant::VariableExpression { name: ident("x") };
    assert_eq!(v.pretty_print(&engine), "\"x\" variable exp");
    let one = lit(Literal::U64(1), &mut engine);
    let two = lit(Literal::U64(2), &mut engine);
    let t = TypedExpressionVariant::Tuple { fields: vec![one, two] };
    assert_eq!(t.pretty_print(&engine), "tuple(literal 1, literal 2)");
}

#[test]
fn enum_instantiation_pretty_prints_tag() {
    let mut engine = Engine::new();
    let unit_id = engine.insert(TypeInfo::Unit);
    let decl = TypedEnumDeclaration {
        name: ident("Result"),
        type_parameters: Vec::new(),
        variants: vec![TypedEnumVariant {
            name: ident("Ok"),
            type_id: unit_id,
            tag: 0,
            span: sp(0, 1),
        }],
        span: sp(0, 5),
    };
    let v = TypedExpressionVariant::EnumInstantiation {
        enum_decl: decl,
        variant_name: ident("Ok"),
        tag: 0,
        contents: None,
    };
    assert_eq!(v.pretty_print(&engine), "Result::Ok enum instantiation (tag: 0)");
}

#[test]
fn struct_field_access_pretty_print() {
    let mut engine = Engine::new();
    let u64_id = engine.insert(TypeInfo::UnsignedInteger(IntegerBits::SixtyFour));
    let point = engine.insert(TypeInfo::Struct {
        name: String::from("Point"),
        fields: vec![OwnedTypedStructField { name: String::from("x"), type_id: u64_id }],
    });
    let prefix = TypedExpression {
        expression: TypedExpressionVariant::VariableExpression { name: ident("p") },
        return_type: point,
        is_constant: false,
        span: sp(0, 1),
    };
    let v = TypedExpressionVariant::StructFieldAccess {
        prefix: Box::new(prefix),
        field_to_access: OwnedTypedStructField { name: String::from("x"), type_id: u64_id },
        resolved_type_of_parent: point,
        field_to_access_span: sp(2, 3),
    };
    assert_eq!(v.pretty_print(&engine), "\"struct Point.x\" struct field access");
}

#[test]
fn storage_access_pretty_print() {
    let engine = Engine::new();
    let field = TypedExpressionVariant::StorageAccess(TypeCheckedStorageAccess::new_load(
        StateIndex::new(0),
        ident("balance"),
    ));
    assert_eq!(field.pretty_print(&engine), "storage field balance access");
    let whole = TypedExpressionVariant::StorageAccess(TypeCheckedStorageAccess::unit_access());
    assert_eq!(whole.pretty_print(&engine), "storage struct access");
}

#[test]
fn while_loop_pretty_print() {
    let mut engine = Engine::new();
    let condition = lit(Literal::U64(1), &mut engine);
    let w = TypedWhileLoop { condition, body: TypedCodeBlock { contents: Vec::new() } };
    assert_eq!(w.pretty_print(&engine), "while loop on literal 1");
}

#[test]
fn size_of_pretty_print() {
    let mut engine = Engine::new();
    let bool_id = engine.insert(TypeInfo::Boolean);
    let v = TypedExpressionVariant::SizeOf {
        variant: sway_core::typed_expression::SizeOfVariant::Type(bool_id),
    };
    assert_eq!(v.pretty_print(&engine), "size_of(bool)");
}
