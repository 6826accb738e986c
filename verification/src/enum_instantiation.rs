//! Instantiating a variant of a declared enum: substitute the supplied type
//! arguments, find the variant by name, and hold the supplied payload
//! arguments to the variant's declared payload.

use vstd::prelude::*;

use crate::error::{err, ok, CompileError, CompileResult, CompileWarning};
use crate::expression::Expression;
use crate::namespace::Namespace;
use crate::resolved_type::{lemma_resolve_deterministic, resolves_to, rt_eq, ResolvedType};
use crate::span::{ident_eq, Ident};
use crate::type_engine::{extends, Engine, TypeId};
use crate::typed_enum::{
    find_variant_spec, lemma_find_variant_spec, TypedEnumDeclaration, TypedEnumVariant,
};
use crate::typed_expression::{TypedExpression, TypedExpressionVariant};

verus! {

/// What the argument-count policy decides for one instantiation.
#[derive(Clone, Copy, Debug, PartialEq, Eq, Structural)]
pub enum InstantiatorArity {
    /// Unit payload, no argument: the variant carries no payload.
    NoPayload,
    /// Non-unit payload, one argument: check the argument against it.
    SingleArgument,
    /// Non-unit payload, no argument.
    MissingInstantiator,
    /// Unit payload, exactly one argument.
    UnnecessaryInstantiator,
    /// Two or more arguments, whatever the payload; this outranks the
    /// unit-payload finding, so two arguments on a unit variant report the
    /// count, not the needlessness.
    TooManyInstantiators,
}

/// The argument-count policy, keyed on the variant's declared payload and
/// the number of supplied arguments.
pub fn check_instantiator_arity(num_args: usize, payload_is_unit: bool) -> (r: InstantiatorArity)
    ensures
        num_args >= 2 ==> r is TooManyInstantiators,
        num_args == 1 && payload_is_unit ==> r is UnnecessaryInstantiator,
        num_args == 1 && !payload_is_unit ==> r is SingleArgument,
        num_args == 0 && payload_is_unit ==> r is NoPayload,
        num_args == 0 && !payload_is_unit ==> r is MissingInstantiator,
{
    if num_args >= 2 {
        InstantiatorArity::TooManyInstantiators
    } else if num_args == 1 {
        if payload_is_unit {
            InstantiatorArity::UnnecessaryInstantiator
        } else {
            InstantiatorArity::SingleArgument
        }
    } else {
        if payload_is_unit {
            InstantiatorArity::NoPayload
        } else {
            InstantiatorArity::MissingInstantiator
        }
    }
}

/// Variant search goes by name alone, so it agrees on any two variant
/// lists whose names agree position by position.
proof fn lemma_find_variant_congruent(
    v1: Seq<TypedEnumVariant>,
    v2: Seq<TypedEnumVariant>,
    name: Seq<char>,
)
    requires
        v1.len() == v2.len(),
        forall|i: int| 0 <= i < v1.len() ==> (#[trigger] v1[i]).name.name@ == v2[i].name.name@,
    ensures
        find_variant_spec(v1, name) == find_variant_spec(v2, name),
    decreases v1.len(),
{
    if v1.len() > 0 && v1[0].name.name@ != name {
        assert forall|i: int|
            0 <= i < v1.drop_first().len() implies (#[trigger] v1.drop_first()[i]).name.name@
            == v2.drop_first()[i].name.name@ by {
            assert(v1.drop_first()[i] == v1[i + 1]);
            assert(v2.drop_first()[i] == v2[i + 1]);
        }
        lemma_find_variant_congruent(v1.drop_first(), v2.drop_first(), name);
    }
}

/// The node a successful instantiation produces: an enum-instantiation
/// expression carrying the matched variant's stable tag and name, at the
/// instantiation site, never a compile-time constant.
pub open spec fn instantiation_node(
    te: TypedExpression,
    decl: TypedEnumDeclaration,
    i: int,
    field_name: Ident,
) -> bool {
    &&& te.expression matches TypedExpressionVariant::EnumInstantiation {
        enum_decl: d,
        variant_name: vn,
        tag,
        ..
    } && tag == decl.variants@[i].tag && ident_eq(vn, decl.variants@[i].name) && ident_eq(
        d.name,
        decl.name,
    )
    &&& te.span == field_name.span
    &&& te.is_constant == false
}

#[verifier::loop_isolation(false)]
fn find_variant(variants: &Vec<TypedEnumVariant>, name: &Ident) -> (r: Option<usize>)
    ensures
        match find_variant_spec(variants@, name.name@) {
            Some(i) => r matches Some(ix) && ix as int == i,
            None => r is None,
        },
{
    proof {
        lemma_find_variant_spec(variants@, name.name@);
    }
    let mut i: usize = 0;
    while i < variants.len()
        invariant
            i <= variants.len(),
            forall|j: int| 0 <= j < i as int ==> (#[trigger] variants@[j]).name.name@
                != name.name@,
        decreases variants.len() - i,
    {
        if variants[i].name.name.eq(&name.name) {
            proof {
                lemma_find_variant_spec(variants@, name.name@);
            }
            return Some(i);
        }
        i = i + 1;
    }
    None
}

/// Given an enum declaration and the instantiation expression and type
/// arguments, constructs a checked enum-instantiation expression.
///
/// The declaration is first substituted at the supplied type arguments (a
/// fresh substitution per call site), the variant is found by name, and
/// then the argument-count policy of [`check_instantiator_arity`] decides:
/// no payload for a unit variant, a checked single argument for a payload
/// variant, and a reported error otherwise. An unknown variant name is
/// reported and the expression abandoned.
///
/// The contract below speaks of the variant's payload through the registry
/// prefix `ts1` that the substitution leaves behind: variant `i`'s
/// substituted handle sits at entry `old length + i`, and whether its
/// payload is unit is whether that handle resolves to the unit shape there.
#[verifier::loop_isolation(false)]
pub fn instantiate_enum(
    enum_decl: TypedEnumDeclaration,
    enum_field_name: Ident,
    args: Vec<Expression>,
    type_arguments: Vec<TypeId>,
    namespace: &Namespace,
    self_type: TypeId,
    engine: &mut Engine,
) -> (r: CompileResult<TypedExpression>)
    requires
        type_arguments@.len() == enum_decl.type_parameters@.len(),
    ensures
        extends(final(engine).types(), old(engine).types()),
        match find_variant_spec(enum_decl.variants@, enum_field_name.name@) {
            None => r.value is None && r.warnings@.len() == 0 && r.errors@.len() == 1 && (
            r.errors@[0] matches CompileError::UnknownEnumVariant {
                enum_name,
                variant_name,
                span,
            } && enum_name@ == enum_decl.name.name@ && variant_name@ == enum_field_name.name@
                && span == enum_field_name.span),
            Some(i) => ({
                let ts1 = final(engine).types().take(
                    old(engine).types().len() + enum_decl.variants@.len() as int,
                );
                let vid = TypeId((old(engine).types().len() + i) as usize);
                let payload_is_unit = resolves_to(ts1, vid, ResolvedType::Unit);
                &&& (args@.len() >= 2 ==> r.value is None && r.errors@.len() == 1 && (r.errors@[0]
                    matches CompileError::MoreThanOneEnumInstantiator { span, .. } && span
                    == enum_field_name.span))
                &&& (args@.len() == 0 && payload_is_unit ==> (r.value matches Some(te)
                    && instantiation_node(te, enum_decl, i, enum_field_name)
                    && te.expression->EnumInstantiation_contents is None && r.errors@.len() == 0))
                &&& (args@.len() == 0 && !payload_is_unit ==> r.value is None && r.errors@.len()
                    == 1 && (r.errors@[0] matches CompileError::MissingEnumInstantiator { span }
                    && span == enum_field_name.span))
                &&& (args@.len() == 1 && payload_is_unit ==> r.value is None && r.errors@.len()
                    == 1 && (r.errors@[0] matches CompileError::UnnecessaryEnumInstantiator {
                    span,
                } && span == enum_field_name.span))
                &&& (args@.len() == 1 && !payload_is_unit ==> (r.value matches Some(te)
                    && instantiation_node(te, enum_decl, i, enum_field_name)
                    && te.expression->EnumInstantiation_contents is Some))
            }),
        },
    decreases args,
{
    let mut warnings: Vec<CompileWarning> = Vec::new();
    let mut errors: Vec<CompileError> = Vec::new();

    let ghost ts0 = engine.types();
    let sub_result = enum_decl.resolve_generic_types(&type_arguments, engine);
    let ghost ts1 = engine.types();
    let decl = match sub_result.value {
        Some(d) => d,
        None => {
            proof {
                assert(false);
            }
            return err(warnings, errors);
        },
    };
    proof {
        lemma_find_variant_congruent(
            decl.variants@,
            enum_decl.variants@,
            enum_field_name.name@,
        );
        lemma_find_variant_spec(decl.variants@, enum_field_name.name@);
    }

    let ix = match find_variant(&decl.variants, &enum_field_name) {
        Some(ix) => ix,
        None => {
            errors.push(
                CompileError::UnknownEnumVariant {
                    enum_name: decl.name.name.clone(),
                    variant_name: enum_field_name.name.clone(),
                    span: enum_field_name.span,
                },
            );
            return err(warnings, errors);
        },
    };
    proof {
        assert(find_variant_spec(decl.variants@, enum_field_name.name@) == Some(ix as int));
    }

    let variant_type = decl.variants[ix].type_id;
    let tag = decl.variants[ix].tag;
    let variant_name = decl.variants[ix].name.clone_ident();

    // If there is an instantiator, it must match up with the declared
    // payload type; with no instantiator, that type is necessarily unit.
    let payload_shape = engine.resolve(variant_type);
    let payload_is_unit = match &payload_shape {
        ResolvedType::Unit => true,
        _ => false,
    };
    proof {
        assert(variant_type == TypeId((ts0.len() + ix as int) as usize));
        if payload_is_unit {
            assert(payload_shape == ResolvedType::Unit);
            assert(resolves_to(ts1, variant_type, ResolvedType::Unit));
        } else if resolves_to(ts1, variant_type, ResolvedType::Unit) {
            lemma_resolve_deterministic(
                ts1,
                variant_type,
                (ts1.len() + 1) as nat,
                ResolvedType::Unit,
                payload_shape,
            );
            assert(rt_eq(ResolvedType::Unit, payload_shape));
            assert(false);
        }
        assert(payload_is_unit == resolves_to(ts1, variant_type, ResolvedType::Unit));
    }

    match check_instantiator_arity(args.len(), payload_is_unit) {
        InstantiatorArity::NoPayload => {
            let return_type = decl.as_type(engine);
            proof {
                assert(engine.types().take(ts1.len() as int) =~= ts1);
            }
            ok(
                TypedExpression {
                    expression: TypedExpressionVariant::EnumInstantiation {
                        enum_decl: decl,
                        variant_name,
                        tag,
                        contents: None,
                    },
                    return_type,
                    is_constant: false,
                    span: enum_field_name.span,
                },
                warnings,
                errors,
            )
        },
        InstantiatorArity::SingleArgument => {
            let mut args = args;
            let single_expr = match args.pop() {
                Some(e) => e,
                None => {
                    proof {
                        assert(false);
                    }
                    return err(warnings, errors);
                },
            };
            let mut checked = TypedExpression::type_check(
                single_expr,
                namespace,
                engine,
                Some(variant_type),
                self_type,
            );
            warnings.append(&mut checked.warnings);
            errors.append(&mut checked.errors);
            let typed_payload = match checked.value {
                Some(te) => te,
                None => {
                    proof {
                        assert(false);
                    }
                    return err(warnings, errors);
                },
            };
            let return_type = decl.as_type(engine);
            proof {
                assert(engine.types().take(ts1.len() as int) =~= ts1);
            }
            ok(
                TypedExpression {
                    expression: TypedExpressionVariant::EnumInstantiation {
                        enum_decl: decl,
                        variant_name,
                        tag,
                        contents: Some(Box::new(typed_payload)),
                    },
                    return_type,
                    is_constant: false,
                    span: enum_field_name.span,
                },
                warnings,
                errors,
            )
        },
        InstantiatorArity::MissingInstantiator => {
            errors.push(CompileError::MissingEnumInstantiator { span: enum_field_name.span });
            proof {
                assert(engine.types().take(ts1.len() as int) =~= ts1);
            }
            err(warnings, errors)
        },
        InstantiatorArity::UnnecessaryInstantiator => {
            errors.push(CompileError::UnnecessaryEnumInstantiator { span: enum_field_name.span });
            proof {
                assert(engine.types().take(ts1.len() as int) =~= ts1);
            }
            err(warnings, errors)
        },
        InstantiatorArity::TooManyInstantiators => {
            errors.push(
                CompileError::MoreThanOneEnumInstantiator {
                    span: enum_field_name.span,
                    ty: payload_shape.friendly_type_str(),
                },
            );
            proof {
                assert(engine.types().take(ts1.len() as int) =~= ts1);
            }
            err(warnings, errors)
        },
    }
}

} // verus!
