//! Typed enum declarations: the result of typing an enum declaration against
//! the registry, and the monomorphizer that substitutes its generic
//! parameters with concrete handles.

use vstd::prelude::*;

use crate::error::{ok, CompileResult};
use crate::span::{ident_eq, Ident, Span};
use crate::type_engine::{
    extends, id_rewrite_ok, lemma_id_rewrite_frame, lemma_param_match_congruent, matches_spec,
    param_match, Engine, TypeId, TypeInfo, TypeParameter,
};

verus! {

/// One typed variant. The tag is the variant's zero-based position among
/// the declared variants, assigned when the declaration is first typed; it
/// is the runtime discriminant and is never reassigned.
#[derive(Clone, Debug)]
pub struct TypedEnumVariant {
    pub name: Ident,
    pub type_id: TypeId,
    pub tag: usize,
    pub span: Span,
}

#[derive(Clone, Debug)]
pub struct TypedEnumDeclaration {
    pub name: Ident,
    pub type_parameters: Vec<TypeParameter>,
    pub variants: Vec<TypedEnumVariant>,
    pub span: Span,
}

/// Everything of a typed variant but its payload type handle agrees.
pub open spec fn variant_shape_eq(a: TypedEnumVariant, b: TypedEnumVariant) -> bool {
    ident_eq(a.name, b.name) && a.tag == b.tag && a.span == b.span
}

/// The substitution a declaration's parameter list induces when paired
/// positionally with concrete arguments.
pub open spec fn substitution(params: Seq<TypeParameter>, args: Seq<TypeId>) -> Seq<
    (TypeParameter, TypeId),
> {
    Seq::new(params.len(), |i: int| (params[i], args[i]))
}

/// How a substituted declaration relates to the one it came from, between
/// the registry as it was (`ts0`) and as it ends up (`ts1`): names, tags
/// and spans are kept; variant `i`'s payload handle is the `i`-th entry
/// appended by this substitution (fresh, hence never aliasing a handle that
/// existed before, nor another variant's); and each appended entry is a
/// reference to the parameter's concrete argument where the old handle was
/// a covered generic parameter, else a reference to the old handle itself.
pub open spec fn monomorphized(
    orig: TypedEnumDeclaration,
    d: TypedEnumDeclaration,
    args: Seq<TypeId>,
    ts0: Seq<TypeInfo>,
    ts1: Seq<TypeInfo>,
) -> bool {
    &&& ident_eq(d.name, orig.name)
    &&& d.span == orig.span
    &&& d.type_parameters@.len() == orig.type_parameters@.len()
    &&& d.variants@.len() == orig.variants@.len()
    &&& forall|i: int|
        0 <= i < d.variants@.len() ==> variant_shape_eq(#[trigger] d.variants@[i], orig.variants@[i])
    &&& forall|i: int|
        0 <= i < d.variants@.len() ==> {
            let nid = (#[trigger] d.variants@[i]).type_id;
            &&& nid.0 == ts0.len() + i
            &&& nid.0 < ts1.len()
            &&& ts1[nid.0 as int] == (match matches_spec(
                ts0,
                orig.variants@[i].type_id,
                substitution(orig.type_parameters@, args),
            ) {
                Some(m) => TypeInfo::Ref(m),
                None => TypeInfo::Ref(orig.variants@[i].type_id),
            })
        }
    &&& forall|i: int, j: int|
        0 <= i < j < d.variants@.len() ==> (#[trigger] d.variants@[i]).type_id != (
        #[trigger] d.variants@[j]).type_id
}

impl TypedEnumDeclaration {
    /// Monomorphization: given exactly as many concrete handles as the
    /// declaration has type parameters, produces a declaration with every
    /// parameter occurrence replaced by its corresponding handle. Every
    /// variant's payload handle in the result is freshly inserted, so two
    /// substituted declarations never share one.
    #[verifier::loop_isolation(false)]
    pub fn resolve_generic_types(&self, type_arguments: &Vec<TypeId>, engine: &mut Engine) -> (r:
        CompileResult<TypedEnumDeclaration>)
        requires
            type_arguments@.len() == self.type_parameters@.len(),
        ensures
            extends(final(engine).types(), old(engine).types()),
            final(engine).types().len() == old(engine).types().len() + self.variants@.len(),
            r.warnings@.len() == 0,
            r.errors@.len() == 0,
            r.value matches Some(d) && monomorphized(
                *self,
                d,
                type_arguments@,
                old(engine).types(),
                final(engine).types(),
            ),
    {
        let ghost ts0 = engine.types();
        let ghost subst = substitution(self.type_parameters@, type_arguments@);

        let mut mapping: Vec<(TypeParameter, TypeId)> = Vec::new();
        let mut i: usize = 0;
        while i < self.type_parameters.len()
            invariant
                i <= self.type_parameters.len(),
                mapping@.len() == i as int,
                forall|j: int|
                    0 <= j < i as int ==> (#[trigger] mapping@[j]).0.name.name@
                        == subst[j].0.name.name@ && mapping@[j].1 == subst[j].1,
            decreases self.type_parameters.len() - i,
        {
            mapping.push((self.type_parameters[i].clone_param(), type_arguments[i]));
            i = i + 1;
        }
        proof {
            assert forall|nm: Seq<char>| #[trigger]
                param_match(mapping@, nm) == param_match(subst, nm) by {
                lemma_param_match_congruent(mapping@, subst, nm);
            }
        }

        // Decide each variant's substitution against the unchanged registry
        // first; the fresh entries are inserted afterwards.
        let mut targets: Vec<Option<TypeId>> = Vec::new();
        let mut i: usize = 0;
        while i < self.variants.len()
            invariant
                i <= self.variants.len(),
                targets@.len() == i as int,
                forall|j: int|
                    0 <= j < i as int ==> #[trigger] targets@[j] == matches_spec(
                        ts0,
                        self.variants@[j].type_id,
                        subst,
                    ),
            decreases self.variants.len() - i,
        {
            targets.push(engine.matches_type_parameter(self.variants[i].type_id, &mapping));
            i = i + 1;
        }

        let mut variants_buf: Vec<TypedEnumVariant> = Vec::new();
        let mut i: usize = 0;
        while i < self.variants.len()
            invariant
                i <= self.variants.len(),
                variants_buf@.len() == i as int,
                engine.types().len() == ts0.len() + i as int,
                extends(engine.types(), ts0),
                forall|j: int|
                    0 <= j < i as int ==> variant_shape_eq(
                        #[trigger] variants_buf@[j],
                        self.variants@[j],
                    ),
                forall|j: int|
                    0 <= j < i as int ==> (#[trigger] variants_buf@[j]).type_id.0 == ts0.len() + j,
                forall|j: int|
                    0 <= j < i as int ==> engine.types()[(#[trigger] variants_buf@[j]).type_id.0
                        as int] == (match matches_spec(ts0, self.variants@[j].type_id, subst) {
                        Some(m) => TypeInfo::Ref(m),
                        None => TypeInfo::Ref(self.variants@[j].type_id),
                    }),
            decreases self.variants.len() - i,
        {
            let target: TypeId = match targets[i] {
                Some(m) => m,
                None => self.variants[i].type_id,
            };
            let nid = engine.insert(TypeInfo::Ref(target));
            variants_buf.push(
                TypedEnumVariant {
                    name: self.variants[i].name.clone_ident(),
                    type_id: nid,
                    tag: self.variants[i].tag,
                    span: self.variants[i].span,
                },
            );
            i = i + 1;
        }

        let mut params_buf: Vec<TypeParameter> = Vec::new();
        let mut i: usize = 0;
        while i < self.type_parameters.len()
            invariant
                i <= self.type_parameters.len(),
                params_buf@.len() == i as int,
            decreases self.type_parameters.len() - i,
        {
            params_buf.push(self.type_parameters[i].clone_param());
            i = i + 1;
        }

        ok(
            TypedEnumDeclaration {
                name: self.name.clone_ident(),
                type_parameters: params_buf,
                variants: variants_buf,
                span: self.span,
            },
            Vec::new(),
            Vec::new(),
        )
    }
}


/// How a declaration embedded in a copied expression tree relates to the
/// original: names, tags, spans and parameter count are kept, and each
/// variant's payload handle is rewritten by the embedded-handle rule.
pub open spec fn decl_copied(
    o: TypedEnumDeclaration,
    n: TypedEnumDeclaration,
    mapping: Seq<(TypeParameter, TypeId)>,
    ts0: Seq<TypeInfo>,
    ts1: Seq<TypeInfo>,
) -> bool {
    &&& ident_eq(n.name, o.name)
    &&& n.span == o.span
    &&& n.type_parameters@.len() == o.type_parameters@.len()
    &&& n.variants@.len() == o.variants@.len()
    &&& forall|i: int|
        0 <= i < o.variants@.len() ==> variant_shape_eq(#[trigger] n.variants@[i], o.variants@[i])
            && id_rewrite_ok(
            o.variants@[i].type_id,
            n.variants@[i].type_id,
            mapping,
            ts0,
            ts1,
        )
}

/// [`decl_copied`] is stable under the frame moves of
/// [`lemma_id_rewrite_frame`].
pub proof fn lemma_decl_copied_frame(
    o: TypedEnumDeclaration,
    n: TypedEnumDeclaration,
    mapping: Seq<(TypeParameter, TypeId)>,
    ts0a: Seq<TypeInfo>,
    ts1a: Seq<TypeInfo>,
    ts0b: Seq<TypeInfo>,
    ts1b: Seq<TypeInfo>,
)
    requires
        decl_copied(o, n, mapping, ts0a, ts1a),
        extends(ts0a, ts0b),
        forall|k: int| ts0b.len() <= k < ts0a.len() ==> ts0a[k] is Ref,
        extends(ts1b, ts1a),
    ensures
        decl_copied(o, n, mapping, ts0b, ts1b),
{
    assert forall|i: int| 0 <= i < o.variants@.len() implies variant_shape_eq(
        #[trigger] n.variants@[i],
        o.variants@[i],
    ) && id_rewrite_ok(
        o.variants@[i].type_id,
        n.variants@[i].type_id,
        mapping,
        ts0b,
        ts1b,
    ) by {
        lemma_id_rewrite_frame(
            o.variants@[i].type_id,
            n.variants@[i].type_id,
            mapping,
            ts0a,
            ts1a,
            ts0b,
            ts1b,
        );
    }
}

impl TypedEnumDeclaration {
    /// Rewrites every variant payload handle under the substitution, as part
    /// of copying a typed expression tree: covered placeholders become fresh
    /// references to their concrete arguments, unrelated handles stay
    /// untouched.
    #[verifier::loop_isolation(false)]
    pub fn copy_types(&self, type_mapping: &Vec<(TypeParameter, TypeId)>, engine: &mut Engine) -> (
        n: TypedEnumDeclaration)
        ensures
            extends(final(engine).types(), old(engine).types()),
            forall|k: int|
                old(engine).types().len() <= k < final(engine).types().len()
                    ==> final(engine).types()[k] is Ref,
            decl_copied(*self, n, type_mapping@, old(engine).types(), final(engine).types()),
    {
        let ghost ts0 = engine.types();
        let mut variants_buf: Vec<TypedEnumVariant> = Vec::new();
        let mut i: usize = 0;
        while i < self.variants.len()
            invariant
                i <= self.variants.len(),
                variants_buf@.len() == i as int,
                extends(engine.types(), ts0),
                forall|k: int|
                    ts0.len() <= k < engine.types().len() ==> (#[trigger] engine.types()[k]) is Ref,
                forall|j: int|
                    0 <= j < i as int ==> variant_shape_eq(
                        #[trigger] variants_buf@[j],
                        self.variants@[j],
                    ) && id_rewrite_ok(
                        self.variants@[j].type_id,
                        variants_buf@[j].type_id,
                        type_mapping@,
                        ts0,
                        engine.types(),
                    ),
            decreases self.variants.len() - i,
        {
            let ghost pre = engine.types();
            let nid = engine.substitute_id(self.variants[i].type_id, type_mapping);
            proof {
                assert forall|j: int|
                    0 <= j < i as int implies id_rewrite_ok(
                    self.variants@[j].type_id,
                    variants_buf@[j].type_id,
                    type_mapping@,
                    ts0,
                    engine.types(),
                ) by {
                    lemma_id_rewrite_frame(
                        self.variants@[j].type_id,
                        variants_buf@[j].type_id,
                        type_mapping@,
                        ts0,
                        pre,
                        ts0,
                        engine.types(),
                    );
                }
                lemma_id_rewrite_frame(
                    self.variants@[i as int].type_id,
                    nid,
                    type_mapping@,
                    pre,
                    engine.types(),
                    ts0,
                    engine.types(),
                );
            }
            variants_buf.push(
                TypedEnumVariant {
                    name: self.variants[i].name.clone_ident(),
                    type_id: nid,
                    tag: self.variants[i].tag,
                    span: self.variants[i].span,
                },
            );
            i = i + 1;
        }
        let mut params_buf: Vec<TypeParameter> = Vec::new();
        let mut i: usize = 0;
        while i < self.type_parameters.len()
            invariant
                i <= self.type_parameters.len(),
                params_buf@.len() == i as int,
            decreases self.type_parameters.len() - i,
        {
            params_buf.push(self.type_parameters[i].clone_param());
            i = i + 1;
        }
        TypedEnumDeclaration {
            name: self.name.clone_ident(),
            type_parameters: params_buf,
            variants: variants_buf,
            span: self.span,
        }
    }
}


/// Two typed declarations agree in full, payload handles included.
pub open spec fn decl_eq(a: TypedEnumDeclaration, b: TypedEnumDeclaration) -> bool {
    &&& ident_eq(a.name, b.name)
    &&& a.span == b.span
    &&& a.type_parameters@.len() == b.type_parameters@.len()
    &&& forall|i: int|
        0 <= i < a.type_parameters@.len() ==> ident_eq(
            (#[trigger] a.type_parameters@[i]).name,
            b.type_parameters@[i].name,
        ) && a.type_parameters@[i].type_id == b.type_parameters@[i].type_id
    &&& a.variants@.len() == b.variants@.len()
    &&& forall|i: int|
        0 <= i < a.variants@.len() ==> variant_shape_eq(#[trigger] a.variants@[i], b.variants@[i])
            && a.variants@[i].type_id == b.variants@[i].type_id
}

/// The position of the first variant declared under `name`, if any.
pub open spec fn find_variant_spec(variants: Seq<TypedEnumVariant>, name: Seq<char>) -> Option<int>
    decreases variants.len(),
{
    if variants.len() == 0 {
        None
    } else if variants[0].name.name@ == name {
        Some(0int)
    } else {
        match find_variant_spec(variants.drop_first(), name) {
            Some(i) => Some(i + 1),
            None => None,
        }
    }
}

pub broadcast proof fn lemma_find_variant_spec(variants: Seq<TypedEnumVariant>, name: Seq<char>)
    ensures
        match #[trigger] find_variant_spec(variants, name) {
            Some(i) => {
                &&& 0 <= i < variants.len()
                &&& variants[i].name.name@ == name
                &&& forall|j: int| 0 <= j < i ==> (#[trigger] variants[j]).name.name@ != name
            },
            None => forall|j: int|
                0 <= j < variants.len() ==> (#[trigger] variants[j]).name.name@ != name,
        },
    decreases variants.len(),
{
    if variants.len() > 0 && variants[0].name.name@ != name {
        let rest = variants.drop_first();
        lemma_find_variant_spec(rest, name);
        match find_variant_spec(rest, name) {
            Some(i) => {
                assert(variants[i + 1] == rest[i]);
                assert forall|j: int| 0 <= j < i + 1 implies (#[trigger] variants[j]).name.name@
                    != name by {
                    if j > 0 {
                        assert(variants[j] == rest[j - 1]);
                    }
                }
            },
            None => {
                assert forall|j: int|
                    0 <= j < variants.len() implies (#[trigger] variants[j]).name.name@ != name by {
                    if j > 0 {
                        assert(variants[j] == rest[j - 1]);
                    }
                }
            },
        }
    }
}

impl TypedEnumDeclaration {
    /// A copy that callers may consume while the scope keeps its own.
    pub fn clone_decl(&self) -> (d: TypedEnumDeclaration)
        ensures
            decl_eq(d, *self),
    {
        let mut params: Vec<TypeParameter> = Vec::new();
        let mut i: usize = 0;
        while i < self.type_parameters.len()
            invariant
                i <= self.type_parameters.len(),
                params@.len() == i as int,
                forall|j: int|
                    0 <= j < i as int ==> ident_eq(
                        (#[trigger] params@[j]).name,
                        self.type_parameters@[j].name,
                    ) && params@[j].type_id == self.type_parameters@[j].type_id,
            decreases self.type_parameters.len() - i,
        {
            params.push(self.type_parameters[i].clone_param());
            i = i + 1;
        }
        let mut variants: Vec<TypedEnumVariant> = Vec::new();
        let mut i: usize = 0;
        while i < self.variants.len()
            invariant
                i <= self.variants.len(),
                variants@.len() == i as int,
                forall|j: int|
                    0 <= j < i as int ==> variant_shape_eq(
                        #[trigger] variants@[j],
                        self.variants@[j],
                    ) && variants@[j].type_id == self.variants@[j].type_id,
            decreases self.variants.len() - i,
        {
            variants.push(
                TypedEnumVariant {
                    name: self.variants[i].name.clone_ident(),
                    type_id: self.variants[i].type_id,
                    tag: self.variants[i].tag,
                    span: self.variants[i].span,
                },
            );
            i = i + 1;
        }
        TypedEnumDeclaration {
            name: self.name.clone_ident(),
            type_parameters: params,
            variants,
            span: self.span,
        }
    }

    /// The handle of this declaration's own type: an enum descriptor over
    /// the variants' payload handles, freshly inserted.
    #[verifier::loop_isolation(false)]
    pub fn as_type(&self, engine: &mut Engine) -> (id: TypeId)
        ensures
            extends(final(engine).types(), old(engine).types()),
            final(engine).types().len() == old(engine).types().len() + 1,
            id.0 == old(engine).types().len(),
            final(engine).types()[id.0 as int] matches TypeInfo::Enum { name, variant_types }
                && name@ == self.name.name@ && variant_types@.len() == self.variants@.len() && (
            forall|i: int|
                0 <= i < self.variants@.len() ==> variant_types@[i] == (
                #[trigger] self.variants@[i]).type_id),
    {
        let mut variant_types: Vec<TypeId> = Vec::new();
        let mut i: usize = 0;
        while i < self.variants.len()
            invariant
                i <= self.variants.len(),
                variant_types@.len() == i as int,
                forall|j: int|
                    0 <= j < i as int ==> #[trigger] variant_types@[j]
                        == self.variants@[j].type_id,
            decreases self.variants.len() - i,
        {
            variant_types.push(self.variants[i].type_id);
            i = i + 1;
        }
        engine.insert(TypeInfo::Enum { name: self.name.name.clone(), variant_types })
    }
}

/// Substituting the same generic declaration at two call sites, one after
/// the other, draws the two variant payload handle sets from disjoint fresh
/// ranges of the registry: no handle of the one declaration ever equals a
/// handle of the other, however analogous their structure.
pub proof fn lemma_monomorphization_non_aliasing(
    d1: TypedEnumDeclaration,
    d2: TypedEnumDeclaration,
    len0: int,
    len1: int,
    len2: int,
)
    requires
        len0 <= len1 <= len2,
        forall|i: int|
            0 <= i < d1.variants@.len() ==> len0 <= (#[trigger] d1.variants@[i]).type_id.0 < len1,
        forall|i: int|
            0 <= i < d2.variants@.len() ==> len1 <= (#[trigger] d2.variants@[i]).type_id.0 < len2,
    ensures
        forall|i: int, j: int|
            0 <= i < d1.variants@.len() && 0 <= j < d2.variants@.len() ==> (
            #[trigger] d1.variants@[i]).type_id != (#[trigger] d2.variants@[j]).type_id,
{
}

} // verus!
