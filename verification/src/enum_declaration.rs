//! Untyped enum declarations and their typing. Building a declaration
//! assigns each variant its tag — the zero-based position among the
//! declared variants — once and for all; typing the declaration against
//! the registry resolves each variant's annotation and keeps the tags.

use vstd::prelude::*;

use crate::casing::{class_cased, is_class_case};
use crate::error::{ok, CompileResult, CompileWarning, Warning};
use crate::span::{ident_eq, Ident, Span};
use crate::type_engine::{deselfed, extends, Engine, TypeId, TypeInfo, TypeParameter};
use crate::typed_enum::{TypedEnumDeclaration, TypedEnumVariant};

verus! {

/// One declared variant: its name, the written type annotation of its
/// payload, its stable tag, and where it was declared.
#[derive(Debug)]
pub struct EnumVariant {
    pub name: Ident,
    pub type_info: TypeInfo,
    pub tag: usize,
    pub span: Span,
}

#[derive(Debug)]
pub struct EnumDeclaration {
    pub name: Ident,
    pub type_parameters: Vec<TypeParameter>,
    pub variants: Vec<EnumVariant>,
    pub span: Span,
}

/// Tags are positions: the declaration's variants carry 0, 1, … in
/// declaration order.
pub open spec fn tags_are_positions(d: EnumDeclaration) -> bool {
    forall|i: int| 0 <= i < d.variants@.len() ==> (#[trigger] d.variants@[i]).tag == i
}

/// How a typed declaration relates to the untyped one it came from: the
/// name, span, parameter count, and every variant's name, span and — above
/// all — tag are kept.
pub open spec fn typed_from(d: EnumDeclaration, t: TypedEnumDeclaration) -> bool {
    &&& ident_eq(t.name, d.name)
    &&& t.span == d.span
    &&& t.type_parameters@.len() == d.type_parameters@.len()
    &&& t.variants@.len() == d.variants@.len()
    &&& forall|i: int|
        0 <= i < d.variants@.len() ==> ident_eq(
            (#[trigger] t.variants@[i]).name,
            d.variants@[i].name,
        ) && t.variants@[i].tag == d.variants@[i].tag && t.variants@[i].span == d.variants@[i].span
}

/// Tag stability. A declaration built by [`EnumDeclaration::new`] carries
/// tags 0..n-1 in declaration order, typing it keeps them, and re-typing
/// the same declaration — however often — yields identical tags.
pub proof fn lemma_tag_stability(
    d: EnumDeclaration,
    t1: TypedEnumDeclaration,
    t2: TypedEnumDeclaration,
)
    requires
        tags_are_positions(d),
        typed_from(d, t1),
        typed_from(d, t2),
    ensures
        forall|i: int| 0 <= i < t1.variants@.len() ==> (#[trigger] t1.variants@[i]).tag == i,
        forall|i: int|
            0 <= i < t1.variants@.len() ==> (#[trigger] t1.variants@[i]).tag == t2.variants@[i].tag,
{
}

impl EnumDeclaration {
    /// Builds a declaration from its parsed parts, assigning each variant
    /// the next tag in declaration order, and advising — never blocking —
    /// when the enum's or a variant's name is not written in ClassCase.
    #[verifier::loop_isolation(false)]
    pub fn new(
        name: Ident,
        type_parameters: Vec<TypeParameter>,
        variant_parts: Vec<(Ident, TypeInfo, Span)>,
        span: Span,
    ) -> (r: CompileResult<EnumDeclaration>)
        ensures
            r.errors@.len() == 0,
            r.value matches Some(d) && {
                &&& ident_eq(d.name, name)
                &&& d.span == span
                &&& d.type_parameters == type_parameters
                &&& d.variants@.len() == variant_parts@.len()
                &&& tags_are_positions(d)
                &&& forall|i: int|
                    0 <= i < d.variants@.len() ==> ident_eq(
                        (#[trigger] d.variants@[i]).name,
                        variant_parts@[i].0,
                    ) && d.variants@[i].span == variant_parts@[i].2
            },
            r.warnings@.len() == 0 <==> (class_cased(name.name@) && forall|i: int|
                0 <= i < variant_parts@.len() ==> class_cased(
                    (#[trigger] variant_parts@[i]).0.name@,
                )),
    {
        let mut warnings: Vec<CompileWarning> = Vec::new();
        if !is_class_case(name.name.as_str()) {
            warnings.push(
                CompileWarning {
                    span: name.span,
                    warning_content: Warning::NonClassCaseEnumName {
                        enum_name: name.name.clone(),
                    },
                },
            );
        }
        let mut variant_parts = variant_parts;
        let ghost all = variant_parts@;
        let mut variants: Vec<EnumVariant> = Vec::new();
        while variant_parts.len() > 0
            invariant
                variants@.len() + variant_parts@.len() == all.len(),
                variant_parts@ == all.skip(variants@.len() as int),
                forall|i: int|
                    0 <= i < variants@.len() ==> ident_eq(
                        (#[trigger] variants@[i]).name,
                        all[i].0,
                    ) && variants@[i].tag == i && variants@[i].span == all[i].2,
                warnings@.len() == 0 <==> (class_cased(name.name@) && forall|i: int|
                    0 <= i < variants@.len() as int ==> class_cased((#[trigger] all[i]).0.name@)),
            decreases variant_parts.len(),
        {
            let ghost i = variants@.len() as int;
            proof {
                assert(all.skip(i)[0] == all[i]);
                assert(all.skip(i).drop_first() =~= all.skip(i + 1));
            }
            let (vname, vtype, vspan) = variant_parts.remove(0);
            let tag = variants.len();
            if !is_class_case(vname.name.as_str()) {
                warnings.push(
                    CompileWarning {
                        span: vname.span,
                        warning_content: Warning::NonClassCaseEnumVariantName {
                            variant_name: vname.name.clone(),
                        },
                    },
                );
            }
            variants.push(EnumVariant { name: vname, type_info: vtype, tag, span: vspan });
        }
        ok(
            EnumDeclaration { name, type_parameters, variants, span },
            warnings,
            Vec::new(),
        )
    }

    /// Types the declaration: each variant's annotation is resolved against
    /// the registry with the `Self` placeholder bound to `self_type`, and
    /// the tags assigned at declaration are kept unchanged.
    #[verifier::loop_isolation(false)]
    pub fn to_typed_decl(&self, engine: &mut Engine, self_type: TypeId) -> (t: TypedEnumDeclaration)
        ensures
            extends(final(engine).types(), old(engine).types()),
            typed_from(*self, t),
    {
        let mut variants_buf: Vec<TypedEnumVariant> = Vec::new();
        let mut i: usize = 0;
        while i < self.variants.len()
            invariant
                i <= self.variants.len(),
                variants_buf@.len() == i as int,
                extends(engine.types(), old(engine).types()),
                forall|j: int|
                    0 <= j < i as int ==> ident_eq(
                        (#[trigger] variants_buf@[j]).name,
                        self.variants@[j].name,
                    ) && variants_buf@[j].tag == self.variants@[j].tag && variants_buf@[j].span
                        == self.variants@[j].span,
            decreases self.variants.len() - i,
        {
            let checked = self.variants[i].to_typed_decl(engine, self_type);
            match checked.value {
                Some(v) => variants_buf.push(v),
                None => {
                    proof {
                        assert(false);
                    }
                },
            }
            i = i + 1;
        }
        let mut params: Vec<TypeParameter> = Vec::new();
        let mut i: usize = 0;
        while i < self.type_parameters.len()
            invariant
                i <= self.type_parameters.len(),
                params@.len() == i as int,
            decreases self.type_parameters.len() - i,
        {
            params.push(self.type_parameters[i].clone_param());
            i = i + 1;
        }
        TypedEnumDeclaration {
            name: self.name.clone_ident(),
            type_parameters: params,
            variants: variants_buf,
            span: self.span,
        }
    }
}

impl EnumVariant {
    /// Types one variant: its annotation goes through the registry with
    /// the `Self` placeholder bound to `self_type`; name, tag and span are
    /// kept.
    pub fn to_typed_decl(&self, engine: &mut Engine, self_type: TypeId) -> (r: CompileResult<
        TypedEnumVariant,
    >)
        ensures
            extends(final(engine).types(), old(engine).types()),
            r.warnings@.len() == 0,
            r.errors@.len() == 0,
            r.value matches Some(v) && {
                &&& ident_eq(v.name, self.name)
                &&& v.tag == self.tag
                &&& v.span == self.span
                &&& self.type_info is SelfType ==> v.type_id == self_type
                &&& !(self.type_info is SelfType) ==> v.type_id.0 == old(engine).types().len()
                    && final(engine).valid(v.type_id) && deselfed(
                    old(engine).types(),
                    self.type_info,
                    final(engine).types()[v.type_id.0 as int],
                    self_type,
                )
            },
    {
        let type_id = engine.resolve_with_self(&self.type_info, self_type);
        ok(
            TypedEnumVariant {
                name: self.name.clone_ident(),
                type_id,
                tag: self.tag,
                span: self.span,
            },
            Vec::new(),
            Vec::new(),
        )
    }
}

} // verus!
