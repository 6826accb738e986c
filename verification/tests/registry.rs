use sway_core::error::Warning;
use sway_core::resolved_type::ResolvedType;
use sway_core::span::{Ident, Span};
use sway_core::type_engine::{
    Engine, IntegerBits, OwnedTypedStructField, TypeId, TypeInfo, TypeParameter,
};
use sway_core::typed_enum::{TypedEnumDeclaration, TypedEnumVariant};
use sway_core::typed_expression::{TypedExpression, TypedExpressionVariant};

fn sp(a: usize, b: usize) -> Span {
    Span { start: a, end: b }
}

fn ident(name: &str) -> Ident {
    Ident { name: String::from(name), span: sp(0, name.len()) }
}

#[test]
fn insert_and_resolve_roundtrip_primitive() {
    let mut engine = Engine::new();
    let id = engine.insert(TypeInfo::Boolean);
    assert!(matches!(engine.resolve(id), ResolvedType::Boolean));
}

#[test]
fn reference_chains_resolve_to_their_target() {
    let mut engine = Engine::new();
    let base = engine.insert(TypeInfo::UnsignedInteger(IntegerBits::ThirtyTwo));
    let r1 = engine.insert(TypeInfo::Ref(base));
    let r2 = engine.insert(TypeInfo::Ref(r1));
    assert!(matches!(
        engine.resolve(r2),
        ResolvedType::UnsignedInteger(IntegerBits::ThirtyTwo)
    ));
}

#[test]
fn reference_cycle_resolves_to_error_recovery() {
    let mut engine = Engine::new();
    // The entry defers to itself: resolution must fail closed.
    let id = engine.insert(TypeInfo::Ref(TypeId(0)));
    assert_eq!(id, TypeId(0));
    assert!(matches!(engine.resolve(id), ResolvedType::ErrorRecovery));
}

#[test]
fn dangling_handle_resolves_to_error_recovery() {
    let engine = Engine::new();
    assert!(matches!(engine.resolve(TypeId(42)), ResolvedType::ErrorRecovery));
}

#[test]
fn resolution_idempotence_on_struct() {
    let mut engine = Engine::new();
    let u64_id = engine.insert(TypeInfo::UnsignedInteger(IntegerBits::SixtyFour));
    let bool_id = engine.insert(TypeInfo::Boolean);
    let point = engine.insert(TypeInfo::Struct {
        name: String::from("Point"),
        fields: vec![
            OwnedTypedStructField { name: String::from("x"), type_id: u64_id },
            OwnedTypedStructField { name: String::from("flag"), type_id: bool_id },
        ],
    });
    let first = engine.resolve(point);
    let reinserted = engine.insert_resolved(&first);
    let second = engine.resolve(reinserted);
    assert!(second.eq_shape(&first));
    assert!(first.eq_shape(&second));
}

#[test]
fn monomorphization_gives_fresh_handles() {
    let mut engine = Engine::new();
    let t_param = engine.insert(TypeInfo::UnknownGeneric { name: String::from("T") });
    let unit_id = engine.insert(TypeInfo::Unit);
    let decl = TypedEnumDeclaration {
        name: ident("Container"),
        type_parameters: vec![TypeParameter { name: ident("T"), type_id: t_param }],
        variants: vec![
            TypedEnumVariant { name: ident("Holding"), type_id: t_param, tag: 0, span: sp(1, 2) },
            TypedEnumVariant { name: ident("Empty"), type_id: unit_id, tag: 1, span: sp(3, 4) },
        ],
        span: sp(0, 10),
    };
    let u8_id = engine.insert(TypeInfo::UnsignedInteger(IntegerBits::Eight));
    let u16_id = engine.insert(TypeInfo::UnsignedInteger(IntegerBits::Sixteen));
    let d1 = decl.resolve_generic_types(&vec![u8_id], &mut engine).value.unwrap();
    let d2 = decl.resolve_generic_types(&vec![u16_id], &mut engine).value.unwrap();
    // No payload handle of the one instantiation aliases one of the other,
    // nor a handle of the declaration they came from.
    for v1 in &d1.variants {
        for v2 in &d2.variants {
            assert_ne!(v1.type_id, v2.type_id);
        }
    }
    for v in d1.variants.iter().chain(d2.variants.iter()) {
        assert_ne!(v.type_id, t_param);
        assert_ne!(v.type_id, unit_id);
    }
    // Still, each resolves to what was substituted (or declared).
    assert!(matches!(
        engine.resolve(d1.variants[0].type_id),
        ResolvedType::UnsignedInteger(IntegerBits::Eight)
    ));
    assert!(matches!(
        engine.resolve(d2.variants[0].type_id),
        ResolvedType::UnsignedInteger(IntegerBits::Sixteen)
    ));
    assert!(matches!(engine.resolve(d1.variants[1].type_id), ResolvedType::Unit));
    assert_eq!(d1.variants[0].tag, 0);
    assert_eq!(d2.variants[1].tag, 1);
}

#[test]
fn matches_type_parameter_finds_placeholder() {
    let mut engine = Engine::new();
    let t_param = engine.insert(TypeInfo::UnknownGeneric { name: String::from("T") });
    let via_ref = engine.insert(TypeInfo::Ref(t_param));
    let u8_id = engine.insert(TypeInfo::UnsignedInteger(IntegerBits::Eight));
    let mapping = vec![(TypeParameter { name: ident("T"), type_id: t_param }, u8_id)];
    assert_eq!(engine.matches_type_parameter(t_param, &mapping), Some(u8_id));
    // Matching follows reference descriptors to the placeholder.
    assert_eq!(engine.matches_type_parameter(via_ref, &mapping), Some(u8_id));
    // A concrete handle is not covered.
    assert_eq!(engine.matches_type_parameter(u8_id, &mapping), None);
}

#[test]
fn resolve_with_self_substitutes_placeholder() {
    let mut engine = Engine::new();
    let self_id = engine.insert(TypeInfo::Contract);
    let direct = engine.resolve_with_self(&TypeInfo::SelfType, self_id);
    assert_eq!(direct, self_id);
    // A placeholder embedded behind a handle is rewritten as well.
    let placeholder = engine.insert(TypeInfo::SelfType);
    let nested = engine.resolve_with_self(&TypeInfo::Ref(placeholder), self_id);
    assert!(matches!(engine.resolve(nested), ResolvedType::Contract));
}

#[test]
fn numeric_cast_widening_never_warns() {
    let widths = [
        IntegerBits::Eight,
        IntegerBits::Sixteen,
        IntegerBits::ThirtyTwo,
        IntegerBits::SixtyFour,
    ];
    for a in widths {
        for b in widths {
            let source = ResolvedType::UnsignedInteger(a);
            let target = ResolvedType::UnsignedInteger(b);
            let verdict = source.numeric_cast_compat(&target);
            if a.bit_width() <= b.bit_width() {
                assert!(verdict.is_ok(), "{:?} -> {:?} must not warn", a, b);
            } else {
                match verdict {
                    Err(Warning::LossOfPrecision { initial_type, cast_to }) => {
                        assert_eq!(initial_type, a);
                        assert_eq!(cast_to, b);
                    },
                    other => panic!("{:?} -> {:?} must warn, got {:?}", a, b, other),
                }
            }
        }
    }
}

#[test]
fn stack_sizes_of_shapes() {
    assert_eq!(ResolvedType::Str(9).stack_size_of(), 2);
    assert_eq!(ResolvedType::Str(8).stack_size_of(), 1);
    assert_eq!(ResolvedType::Unit.stack_size_of(), 0);
    assert_eq!(ResolvedType::B256.stack_size_of(), 4);
    let aggregate = ResolvedType::Struct {
        name: String::from("Pair"),
        fields: vec![
            sway_core::resolved_type::ResolvedStructField {
                name: String::from("a"),
                field_type: ResolvedType::UnsignedInteger(IntegerBits::SixtyFour),
            },
            sway_core::resolved_type::ResolvedStructField {
                name: String::from("b"),
                field_type: ResolvedType::Boolean,
            },
        ],
    };
    assert_eq!(aggregate.stack_size_of(), 2);
    let tagged = ResolvedType::Enum {
        name: String::from("Either"),
        variant_types: vec![
            ResolvedType::UnsignedInteger(IntegerBits::SixtyFour),
            ResolvedType::B256,
        ],
    };
    // One word of tag plus the widest variant.
    assert_eq!(tagged.stack_size_of(), 5);
}

#[test]
fn selector_names_for_aggregates() {
    let span = sp(0, 1);
    let aggregate = ResolvedType::Struct {
        name: String::from("Pair"),
        fields: vec![
            sway_core::resolved_type::ResolvedStructField {
                name: String::from("a"),
                field_type: ResolvedType::UnsignedInteger(IntegerBits::SixtyFour),
            },
            sway_core::resolved_type::ResolvedStructField {
                name: String::from("b"),
                field_type: ResolvedType::Boolean,
            },
        ],
    };
    assert_eq!(aggregate.to_selector_name(&span).value.unwrap(), "s(u64,bool)");
    let tagged = ResolvedType::Enum {
        name: String::from("Either"),
        variant_types: vec![ResolvedType::Unit, ResolvedType::Str(3)],
    };
    assert_eq!(tagged.to_selector_name(&span).value.unwrap(), "e(unit,str[3])");
    let bad = ResolvedType::Contract.to_selector_name(&span);
    assert!(bad.value.is_none());
    assert!(matches!(
        bad.errors[0],
        sway_core::error::CompileError::InvalidAbiType { .. }
    ));
}

#[test]
fn friendly_type_names() {
    assert_eq!(ResolvedType::Str(5).friendly_type_str(), "str[5]");
    assert_eq!(
        ResolvedType::UnsignedInteger(IntegerBits::SixtyFour).friendly_type_str(),
        "u64"
    );
    assert_eq!(ResolvedType::Unit.friendly_type_str(), "()");
    let f = ResolvedType::Function {
        from: Box::new(ResolvedType::UnsignedInteger(IntegerBits::Eight)),
        to: Box::new(ResolvedType::Boolean),
    };
    assert_eq!(f.friendly_type_str(), "fn(u8)->bool");
    assert_eq!(
        ResolvedType::ErrorRecovery.friendly_type_str(),
        "\"unknown due to error\""
    );
}

#[test]
fn copy_types_rewrites_matched_handle_and_keeps_others() {
    let mut engine = Engine::new();
    let t_param = engine.insert(TypeInfo::UnknownGeneric { name: String::from("T") });
    let u8_id = engine.insert(TypeInfo::UnsignedInteger(IntegerBits::Eight));
    let mapping = vec![(TypeParameter { name: ident("T"), type_id: t_param }, u8_id)];

    let generic_node = TypedExpression {
        expression: TypedExpressionVariant::VariableExpression { name: ident("x") },
        return_type: t_param,
        is_constant: false,
        span: sp(0, 1),
    };
    let copied = generic_node.copy_types(&mapping, &mut engine);
    assert_ne!(copied.return_type, t_param);
    assert!(matches!(
        engine.resolve(copied.return_type),
        ResolvedType::UnsignedInteger(IntegerBits::Eight)
    ));

    let concrete_node = TypedExpression {
        expression: TypedExpressionVariant::VariableExpression { name: ident("y") },
        return_type: u8_id,
        is_constant: false,
        span: sp(0, 1),
    };
    let untouched = concrete_node.copy_types(&mapping, &mut engine);
    assert_eq!(untouched.return_type, u8_id);
}

#[test]
fn engine_side_friendly_names_follow_references() {
    let mut engine = Engine::new();
    let base = engine.insert(TypeInfo::UnsignedInteger(IntegerBits::Sixteen));
    let alias = engine.insert(TypeInfo::Ref(base));
    assert_eq!(engine.friendly_type_str_of(alias), "u16");
    let t_param = engine.insert(TypeInfo::UnknownGeneric { name: String::from("T") });
    assert_eq!(engine.friendly_type_str_of(t_param), "T");
    assert_eq!(
        engine.friendly_type_str_of(TypeId(999)),
        "\"unknown due to error\""
    );
}

#[test]
fn resolution_idempotence_through_references() {
    let mut engine = Engine::new();
    let base = engine.insert(TypeInfo::UnsignedInteger(IntegerBits::SixtyFour));
    let alias = engine.insert(TypeInfo::Ref(base));
    let strings = engine.insert(TypeInfo::Str(3));
    let pair = engine.insert(TypeInfo::Enum {
        name: String::from("Either"),
        variant_types: vec![alias, strings],
    });
    let first = engine.resolve(pair);
    let fresh = engine.insert_resolved(&first);
    let second = engine.resolve(fresh);
    assert!(second.eq_shape(&first));
}

#[test]
fn copy_types_keeps_enum_instantiation_shape() {
    let mut engine = Engine::new();
    let t_param = engine.insert(TypeInfo::UnknownGeneric { name: String::from("T") });
    let u8_id = engine.insert(TypeInfo::UnsignedInteger(IntegerBits::Eight));
    let mapping = vec![(TypeParameter { name: ident("T"), type_id: t_param }, u8_id)];
    let decl = TypedEnumDeclaration {
        name: ident("Container"),
        type_parameters: vec![TypeParameter { name: ident("T"), type_id: t_param }],
        variants: vec![TypedEnumVariant {
            name: ident("Holding"),
            type_id: t_param,
            tag: 0,
            span: sp(0, 1),
        }],
        span: sp(0, 9),
    };
    let node = TypedExpression {
        expression: TypedExpressionVariant::EnumInstantiation {
            enum_decl: decl,
            variant_name: ident("Holding"),
            tag: 0,
            contents: None,
        },
        return_type: t_param,
        is_constant: false,
        span: sp(0, 9),
    };
    let copied = node.copy_types(&mapping, &mut engine);
    match copied.expression {
        TypedExpressionVariant::EnumInstantiation { enum_decl, tag, .. } => {
            assert_eq!(tag, 0);
            // The embedded declaration's payload handle was substituted too.
            assert!(matches!(
                engine.resolve(enum_decl.variants[0].type_id),
                ResolvedType::UnsignedInteger(IntegerBits::Eight)
            ));
        },
        other => panic!("unexpected copy: {:?}", other),
    }
    assert!(matches!(
        engine.resolve(copied.return_type),
        ResolvedType::UnsignedInteger(IntegerBits::Eight)
    ));
}
