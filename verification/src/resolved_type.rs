//! Fully dereferenced types. A [`ResolvedType`] is the registry-independent
//! view of a descriptor: reference descriptors have been followed and
//! generic parameters must already have been substituted away, so back-end
//! stages can consume it without consulting the registry. Resolution fails
//! closed: a cycle or a dangling handle yields the error-recovery shape,
//! never a fault.

use vstd::prelude::*;

use std::rc::Rc;

use crate::decimal::{dec_seq, u64_to_string};
use crate::error::{err, ok, CompileError, CompileResult, CompileWarning, Warning};
use crate::span::{ident_eq, Ident, Span};
use crate::span::{call_path_eq, CallPath};
use crate::type_engine::{extends, Engine, IntegerBits, OwnedTypedStructField, TypeId, TypeInfo};
use crate::typed_expression::TypedExpression;

verus! {

/// A struct field owned by value inside a resolved type.
#[derive(Debug)]
pub struct ResolvedStructField {
    pub name: String,
    pub field_type: ResolvedType,
}

/// The fully dereferenced shape of a type: the descriptor variants minus
/// references and generic parameters, owning its nested structure by value.
#[derive(Debug)]
pub enum ResolvedType {
    /// The number in a `Str` is its size, known at compile time.
    Str(u64),
    UnsignedInteger(IntegerBits),
    Boolean,
    Unit,
    Byte,
    B256,
    Struct { name: String, fields: Vec<ResolvedStructField> },
    Enum { name: String, variant_types: Vec<ResolvedType> },
    /// The contract's type as a whole, for implementing an ABI on the
    /// contract itself.
    Contract,
    /// A type that can issue calls into the contract named by `abi_name`.
    ContractCaller { abi_name: CallPath, address: Option<Rc<TypedExpression>> },
    Function { from: Box<ResolvedType>, to: Box<ResolvedType> },
    /// Recovery from an error reported elsewhere.
    ErrorRecovery,
}

/// Structural equality of resolved shapes. The runtime address expression
/// of a contract caller takes no part, matching how such types compare.
pub open spec fn rt_eq(a: ResolvedType, b: ResolvedType) -> bool
    decreases a,
{
    match (a, b) {
        (ResolvedType::Str(l1), ResolvedType::Str(l2)) => l1 == l2,
        (ResolvedType::UnsignedInteger(b1), ResolvedType::UnsignedInteger(b2)) => b1 == b2,
        (ResolvedType::Boolean, ResolvedType::Boolean) => true,
        (ResolvedType::Unit, ResolvedType::Unit) => true,
        (ResolvedType::Byte, ResolvedType::Byte) => true,
        (ResolvedType::B256, ResolvedType::B256) => true,
        (
            ResolvedType::Struct { name: n1, fields: f1 },
            ResolvedType::Struct { name: n2, fields: f2 },
        ) => {
            &&& n1@ == n2@
            &&& f1@.len() == f2@.len()
            &&& forall|i: int|
                0 <= i < f1@.len() ==> (#[trigger] f1@[i]).name@ == f2@[i].name@ && rt_eq(
                    f1@[i].field_type,
                    f2@[i].field_type,
                )
        },
        (
            ResolvedType::Enum { name: n1, variant_types: v1 },
            ResolvedType::Enum { name: n2, variant_types: v2 },
        ) => {
            &&& n1@ == n2@
            &&& v1@.len() == v2@.len()
            &&& forall|i: int| 0 <= i < v1@.len() ==> rt_eq(#[trigger] v1@[i], v2@[i])
        },
        (ResolvedType::Contract, ResolvedType::Contract) => true,
        (
            ResolvedType::ContractCaller { abi_name: a1, .. },
            ResolvedType::ContractCaller { abi_name: a2, .. },
        ) => call_path_eq(a1, a2),
        (
            ResolvedType::Function { from: fr1, to: to1 },
            ResolvedType::Function { from: fr2, to: to2 },
        ) => rt_eq(*fr1, *fr2) && rt_eq(*to1, *to2),
        (ResolvedType::ErrorRecovery, ResolvedType::ErrorRecovery) => true,
        _ => false,
    }
}

pub open spec fn max_nat(a: nat, b: nat) -> nat {
    if a >= b {
        a
    } else {
        b
    }
}

/// The structural depth of a resolved shape: how many levels of nesting it
/// holds. Resolution of a shape of height `h` needs `h` dereference steps.
pub open spec fn rt_height(r: ResolvedType) -> nat
    decreases r,
{
    match r {
        ResolvedType::Struct { fields, .. } => 1 + fields_height(fields@),
        ResolvedType::Enum { variant_types, .. } => 1 + variants_height(variant_types@),
        ResolvedType::Function { from, to } => 1 + max_nat(rt_height(*from), rt_height(*to)),
        _ => 1,
    }
}

pub open spec fn fields_height(s: Seq<ResolvedStructField>) -> nat
    decreases s,
{
    if s.len() == 0 {
        0
    } else {
        max_nat(rt_height(s[0].field_type), fields_height(s.drop_first()))
    }
}

pub open spec fn variants_height(s: Seq<ResolvedType>) -> nat
    decreases s,
{
    if s.len() == 0 {
        0
    } else {
        max_nat(rt_height(s[0]), variants_height(s.drop_first()))
    }
}

/// What resolution computes, as a relation: starting from `id` with `fuel`
/// dereference steps available, the shape `r` is a faithful reading of the
/// registry. Exhausted fuel (a cycle), a dangling handle, and a placeholder
/// that should have been substituted all read as the error-recovery shape.
pub open spec fn resolve_rel(ts: Seq<TypeInfo>, id: TypeId, fuel: nat, r: ResolvedType) -> bool
    decreases fuel,
{
    if fuel == 0 {
        r is ErrorRecovery
    } else if id.0 >= ts.len() {
        r is ErrorRecovery
    } else {
        match ts[id.0 as int] {
            TypeInfo::Str(l) => r == ResolvedType::Str(l),
            TypeInfo::UnsignedInteger(b) => r == ResolvedType::UnsignedInteger(b),
            TypeInfo::Boolean => r is Boolean,
            TypeInfo::Unit => r is Unit,
            TypeInfo::Byte => r is Byte,
            TypeInfo::B256 => r is B256,
            TypeInfo::Contract => r is Contract,
            TypeInfo::Struct { name, fields } => r matches ResolvedType::Struct {
                name: rn,
                fields: rf,
            } && rn@ == name@ && rf@.len() == fields@.len() && (forall|i: int|
                0 <= i < fields@.len() ==> (#[trigger] rf@[i]).name@ == fields@[i].name@
                    && resolve_rel(ts, fields@[i].type_id, (fuel - 1) as nat, rf@[i].field_type)),
            TypeInfo::Enum { name, variant_types } => r matches ResolvedType::Enum {
                name: rn,
                variant_types: rv,
            } && rn@ == name@ && rv@.len() == variant_types@.len() && (forall|i: int|
                0 <= i < variant_types@.len() ==> resolve_rel(
                    ts,
                    variant_types@[i],
                    (fuel - 1) as nat,
                    #[trigger] rv@[i],
                )),
            TypeInfo::ContractCaller { abi_name, .. } => r matches ResolvedType::ContractCaller {
                abi_name: ra,
                ..
            } && call_path_eq(ra, abi_name),
            TypeInfo::Function { from, to } => r matches ResolvedType::Function {
                from: rfrom,
                to: rto,
            } && resolve_rel(ts, from, (fuel - 1) as nat, *rfrom) && resolve_rel(
                ts,
                to,
                (fuel - 1) as nat,
                *rto,
            ),
            TypeInfo::Ref(next) => resolve_rel(ts, next, (fuel - 1) as nat, r),
            TypeInfo::UnknownGeneric { .. } => r is ErrorRecovery,
            TypeInfo::SelfType => r is ErrorRecovery,
            TypeInfo::ErrorRecovery => r is ErrorRecovery,
        }
    }
}

/// Resolution with the standard fuel: one step more than the registry has
/// entries, enough for any chain that does not revisit an entry.
pub open spec fn resolves_to(ts: Seq<TypeInfo>, id: TypeId, r: ResolvedType) -> bool {
    resolve_rel(ts, id, (ts.len() + 1) as nat, r)
}

/// `r` is laid out directly at `id`: the entry is the concrete descriptor
/// of `r`'s head (no reference indirection) and each nested shape is laid
/// out directly at the embedded handle. This is the layout that
/// [`Engine::insert_resolved`] produces.
pub open spec fn direct(ts: Seq<TypeInfo>, id: TypeId, r: ResolvedType) -> bool
    decreases r,
{
    id.0 < ts.len() && match ts[id.0 as int] {
        TypeInfo::Str(l) => r == ResolvedType::Str(l),
        TypeInfo::UnsignedInteger(b) => r == ResolvedType::UnsignedInteger(b),
        TypeInfo::Boolean => r is Boolean,
        TypeInfo::Unit => r is Unit,
        TypeInfo::Byte => r is Byte,
        TypeInfo::B256 => r is B256,
        TypeInfo::Contract => r is Contract,
        TypeInfo::Struct { name, fields } => r matches ResolvedType::Struct {
            name: rn,
            fields: rf,
        } && rn@ == name@ && rf@.len() == fields@.len() && (forall|i: int|
            0 <= i < fields@.len() ==> (#[trigger] rf@[i]).name@ == fields@[i].name@ && direct(
                ts,
                fields@[i].type_id,
                rf@[i].field_type,
            )),
        TypeInfo::Enum { name, variant_types } => r matches ResolvedType::Enum {
            name: rn,
            variant_types: rv,
        } && rn@ == name@ && rv@.len() == variant_types@.len() && (forall|i: int|
            0 <= i < variant_types@.len() ==> direct(ts, variant_types@[i], #[trigger] rv@[i])),
        TypeInfo::ContractCaller { abi_name, .. } => r matches ResolvedType::ContractCaller {
            abi_name: ra,
            ..
        } && call_path_eq(ra, abi_name),
        TypeInfo::Function { from, to } => r matches ResolvedType::Function {
            from: rfrom,
            to: rto,
        } && direct(ts, from, *rfrom) && direct(ts, to, *rto),
        TypeInfo::Ref(_) => false,
        TypeInfo::UnknownGeneric { .. } => false,
        TypeInfo::SelfType => false,
        TypeInfo::ErrorRecovery => r is ErrorRecovery,
    }
}

/// A directly laid-out shape stays laid out when the registry grows:
/// entries are never mutated, only appended.
pub proof fn lemma_direct_extend(ts1: Seq<TypeInfo>, ts2: Seq<TypeInfo>, id: TypeId, r: ResolvedType)
    requires
        direct(ts1, id, r),
        extends(ts2, ts1),
    ensures
        direct(ts2, id, r),
    decreases r,
{
    assert(ts2[id.0 as int] == ts1[id.0 as int]);
    match ts1[id.0 as int] {
        TypeInfo::Struct { name, fields } => {
            let rf = r->Struct_fields;
            assert forall|i: int| 0 <= i < fields@.len() implies (#[trigger] rf@[i]).name@
                == fields@[i].name@ && direct(ts2, fields@[i].type_id, rf@[i].field_type) by {
                lemma_direct_extend(ts1, ts2, fields@[i].type_id, rf@[i].field_type);
            }
        },
        TypeInfo::Enum { name, variant_types } => {
            let rv = r->Enum_variant_types;
            assert forall|i: int| 0 <= i < variant_types@.len() implies direct(
                ts2,
                variant_types@[i],
                #[trigger] rv@[i],
            ) by {
                lemma_direct_extend(ts1, ts2, variant_types@[i], rv@[i]);
            }
        },
        TypeInfo::Function { from, to } => {
            lemma_direct_extend(ts1, ts2, from, *(r->Function_from));
            lemma_direct_extend(ts1, ts2, to, *(r->Function_to));
        },
        _ => {},
    }
}

/// The height of any field's shape bounds from below the height computed
/// over the whole field list.
proof fn lemma_fields_height_at(s: Seq<ResolvedStructField>, i: int)
    requires
        0 <= i < s.len(),
    ensures
        rt_height(s[i].field_type) <= fields_height(s),
    decreases s.len(),
{
    if i > 0 {
        lemma_fields_height_at(s.drop_first(), i - 1);
        assert(s.drop_first()[i - 1] == s[i]);
    }
}

proof fn lemma_variants_height_at(s: Seq<ResolvedType>, i: int)
    requires
        0 <= i < s.len(),
    ensures
        rt_height(s[i]) <= variants_height(s),
    decreases s.len(),
{
    if i > 0 {
        lemma_variants_height_at(s.drop_first(), i - 1);
        assert(s.drop_first()[i - 1] == s[i]);
    }
}

/// A bound that holds of every field's height holds of the whole list's.
proof fn lemma_fields_height_le(s: Seq<ResolvedStructField>, m: nat)
    requires
        forall|i: int| 0 <= i < s.len() ==> rt_height((#[trigger] s[i]).field_type) <= m,
    ensures
        fields_height(s) <= m,
    decreases s.len(),
{
    if s.len() > 0 {
        assert forall|i: int| 0 <= i < s.drop_first().len() implies rt_height(
            (#[trigger] s.drop_first()[i]).field_type,
        ) <= m by {
            assert(s.drop_first()[i] == s[i + 1]);
        }
        lemma_fields_height_le(s.drop_first(), m);
    }
}

proof fn lemma_variants_height_le(s: Seq<ResolvedType>, m: nat)
    requires
        forall|i: int| 0 <= i < s.len() ==> rt_height(#[trigger] s[i]) <= m,
    ensures
        variants_height(s) <= m,
    decreases s.len(),
{
    if s.len() > 0 {
        assert forall|i: int| 0 <= i < s.drop_first().len() implies rt_height(
            #[trigger] s.drop_first()[i],
        ) <= m by {
            assert(s.drop_first()[i] == s[i + 1]);
        }
        lemma_variants_height_le(s.drop_first(), m);
    }
}

/// A directly laid-out shape resolves to itself whenever the fuel covers
/// its height: direct layout never spends fuel on reference indirection.
pub proof fn lemma_direct_resolve(ts: Seq<TypeInfo>, id: TypeId, r: ResolvedType, fuel: nat)
    requires
        direct(ts, id, r),
        fuel >= rt_height(r),
    ensures
        resolve_rel(ts, id, fuel, r),
    decreases r,
{
    match ts[id.0 as int] {
        TypeInfo::Struct { name, fields } => {
            let rf = r->Struct_fields;
            assert forall|i: int| 0 <= i < fields@.len() implies (#[trigger] rf@[i]).name@
                == fields@[i].name@ && resolve_rel(
                ts,
                fields@[i].type_id,
                (fuel - 1) as nat,
                rf@[i].field_type,
            ) by {
                lemma_fields_height_at(rf@, i);
                lemma_direct_resolve(ts, fields@[i].type_id, rf@[i].field_type, (fuel - 1) as nat);
            }
        },
        TypeInfo::Enum { name, variant_types } => {
            let rv = r->Enum_variant_types;
            assert forall|i: int| 0 <= i < variant_types@.len() implies resolve_rel(
                ts,
                variant_types@[i],
                (fuel - 1) as nat,
                #[trigger] rv@[i],
            ) by {
                lemma_variants_height_at(rv@, i);
                lemma_direct_resolve(ts, variant_types@[i], rv@[i], (fuel - 1) as nat);
            }
        },
        TypeInfo::Function { from, to } => {
            lemma_direct_resolve(ts, from, *(r->Function_from), (fuel - 1) as nat);
            lemma_direct_resolve(ts, to, *(r->Function_to), (fuel - 1) as nat);
        },
        _ => {},
    }
}

/// With a fixed fuel, resolution is a function of the registry and the
/// handle: any two shapes it relates are structurally equal.
pub proof fn lemma_resolve_deterministic(
    ts: Seq<TypeInfo>,
    id: TypeId,
    fuel: nat,
    r1: ResolvedType,
    r2: ResolvedType,
)
    requires
        resolve_rel(ts, id, fuel, r1),
        resolve_rel(ts, id, fuel, r2),
    ensures
        rt_eq(r1, r2),
    decreases fuel,
{
    if fuel == 0 || id.0 >= ts.len() {
    } else {
        match ts[id.0 as int] {
            TypeInfo::Struct { name, fields } => {
                let f1 = r1->Struct_fields;
                let f2 = r2->Struct_fields;
                assert forall|i: int| 0 <= i < f1@.len() implies (#[trigger] f1@[i]).name@
                    == f2@[i].name@ && rt_eq(f1@[i].field_type, f2@[i].field_type) by {
                    lemma_resolve_deterministic(
                        ts,
                        fields@[i].type_id,
                        (fuel - 1) as nat,
                        f1@[i].field_type,
                        f2@[i].field_type,
                    );
                }
            },
            TypeInfo::Enum { name, variant_types } => {
                let v1 = r1->Enum_variant_types;
                let v2 = r2->Enum_variant_types;
                assert forall|i: int| 0 <= i < v1@.len() implies rt_eq(
                    #[trigger] v1@[i],
                    v2@[i],
                ) by {
                    lemma_resolve_deterministic(
                        ts,
                        variant_types@[i],
                        (fuel - 1) as nat,
                        v1@[i],
                        v2@[i],
                    );
                }
            },
            TypeInfo::Function { from, to } => {
                lemma_resolve_deterministic(
                    ts,
                    from,
                    (fuel - 1) as nat,
                    *(r1->Function_from),
                    *(r2->Function_from),
                );
                lemma_resolve_deterministic(
                    ts,
                    to,
                    (fuel - 1) as nat,
                    *(r1->Function_to),
                    *(r2->Function_to),
                );
            },
            TypeInfo::Ref(next) => {
                lemma_resolve_deterministic(ts, next, (fuel - 1) as nat, r1, r2);
            },
            _ => {},
        }
    }
}

/// Resolution is idempotent. Resolving a handle gives a shape `r`; laying
/// `r` out afresh (as [`Engine::insert_resolved`] ensures) at a handle `h2`
/// and resolving `h2` gives a shape equal to `r` again. The two `requires`
/// are exactly what `insert_resolved` ensures of the handle it returns, and
/// `resolves_to` is what [`Engine::resolve`] ensures of its result.
pub proof fn lemma_resolution_idempotence(
    ts2: Seq<TypeInfo>,
    h2: TypeId,
    r: ResolvedType,
    r2: ResolvedType,
)
    requires
        direct(ts2, h2, r),
        rt_height(r) <= ts2.len(),
        resolves_to(ts2, h2, r2),
    ensures
        rt_eq(r2, r),
{
    lemma_direct_resolve(ts2, h2, r, (ts2.len() + 1) as nat);
    lemma_resolve_deterministic(ts2, h2, (ts2.len() + 1) as nat, r2, r);
}

impl Engine {
    /// Follows reference descriptors from `id` to a concrete shape,
    /// recursively resolving every nested handle. Fails closed: a cycle or
    /// a dangling handle yields the error-recovery shape.
    pub fn resolve(&self, id: TypeId) -> (r: ResolvedType)
        ensures
            resolves_to(self.types(), id, r),
    {
        let fuel: u128 = self.len() as u128 + 1;
        self.resolve_inner(id, fuel)
    }

    #[verifier::loop_isolation(false)]
    fn resolve_inner(&self, id: TypeId, fuel: u128) -> (r: ResolvedType)
        ensures
            resolve_rel(self.types(), id, fuel as nat, r),
        decreases fuel,
    {
        if fuel == 0 {
            return ResolvedType::ErrorRecovery;
        }
        if id.0 >= self.len() {
            return ResolvedType::ErrorRecovery;
        }
        match self.get(id) {
            TypeInfo::Str(l) => ResolvedType::Str(*l),
            TypeInfo::UnsignedInteger(b) => ResolvedType::UnsignedInteger(*b),
            TypeInfo::Boolean => ResolvedType::Boolean,
            TypeInfo::Unit => ResolvedType::Unit,
            TypeInfo::Byte => ResolvedType::Byte,
            TypeInfo::B256 => ResolvedType::B256,
            TypeInfo::Contract => ResolvedType::Contract,
            TypeInfo::UnknownGeneric { .. } => ResolvedType::ErrorRecovery,
            TypeInfo::SelfType => ResolvedType::ErrorRecovery,
            TypeInfo::ErrorRecovery => ResolvedType::ErrorRecovery,
            TypeInfo::Ref(next) => self.resolve_inner(*next, fuel - 1),
            TypeInfo::ContractCaller { abi_name, address } => ResolvedType::ContractCaller {
                abi_name: abi_name.clone_path(),
                address: address.clone(),
            },
            TypeInfo::Function { from, to } => {
                let rfrom = self.resolve_inner(*from, fuel - 1);
                let rto = self.resolve_inner(*to, fuel - 1);
                ResolvedType::Function { from: Box::new(rfrom), to: Box::new(rto) }
            },
            TypeInfo::Struct { name, fields } => {
                let mut rf: Vec<ResolvedStructField> = Vec::new();
                let mut i: usize = 0;
                while i < fields.len()
                    invariant
                        i <= fields.len(),
                        rf@.len() == i as int,
                        forall|j: int|
                            0 <= j < i as int ==> (#[trigger] rf@[j]).name@ == fields@[j].name@
                                && resolve_rel(
                                self.types(),
                                fields@[j].type_id,
                                (fuel - 1) as nat,
                                rf@[j].field_type,
                            ),
                    decreases fields.len() - i,
                {
                    let ft = self.resolve_inner(fields[i].type_id, fuel - 1);
                    rf.push(ResolvedStructField { name: fields[i].name.clone(), field_type: ft });
                    i = i + 1;
                }
                ResolvedType::Struct { name: name.clone(), fields: rf }
            },
            TypeInfo::Enum { name, variant_types } => {
                let mut rv: Vec<ResolvedType> = Vec::new();
                let mut i: usize = 0;
                while i < variant_types.len()
                    invariant
                        i <= variant_types.len(),
                        rv@.len() == i as int,
                        forall|j: int|
                            0 <= j < i as int ==> resolve_rel(
                                self.types(),
                                variant_types@[j],
                                (fuel - 1) as nat,
                                #[trigger] rv@[j],
                            ),
                    decreases variant_types.len() - i,
                {
                    let vt = self.resolve_inner(variant_types[i], fuel - 1);
                    rv.push(vt);
                    i = i + 1;
                }
                ResolvedType::Enum { name: name.clone(), variant_types: rv }
            },
        }
    }

    /// Lays a resolved shape out in the registry as fresh, directly linked
    /// entries and hands back the handle of its head. Resolving that handle
    /// yields an equal shape again (see [`lemma_resolution_idempotence`]).
    #[verifier::loop_isolation(false)]
    pub fn insert_resolved(&mut self, r: &ResolvedType) -> (id: TypeId)
        ensures
            extends(final(self).types(), old(self).types()),
            final(self).types().len() > old(self).types().len(),
            id.0 >= old(self).types().len(),
            final(self).valid(id),
            direct(final(self).types(), id, *r),
            rt_height(*r) <= final(self).types().len(),
        decreases *r,
    {
        match r {
            ResolvedType::Str(l) => self.insert(TypeInfo::Str(*l)),
            ResolvedType::UnsignedInteger(b) => self.insert(TypeInfo::UnsignedInteger(*b)),
            ResolvedType::Boolean => self.insert(TypeInfo::Boolean),
            ResolvedType::Unit => self.insert(TypeInfo::Unit),
            ResolvedType::Byte => self.insert(TypeInfo::Byte),
            ResolvedType::B256 => self.insert(TypeInfo::B256),
            ResolvedType::Contract => self.insert(TypeInfo::Contract),
            ResolvedType::ErrorRecovery => self.insert(TypeInfo::ErrorRecovery),
            ResolvedType::ContractCaller { abi_name, address } => self.insert(
                TypeInfo::ContractCaller {
                    abi_name: abi_name.clone_path(),
                    address: address.clone(),
                },
            ),
            ResolvedType::Function { from, to } => {
                let ghost t0 = self.types();
                let fid = self.insert_resolved(from);
                let ghost t1 = self.types();
                let tid = self.insert_resolved(to);
                let ghost t2 = self.types();
                let id = self.insert(TypeInfo::Function { from: fid, to: tid });
                proof {
                    lemma_direct_extend(t1, self.types(), fid, *(*from));
                    lemma_direct_extend(t2, self.types(), tid, *(*to));
                }
                id
            },
            ResolvedType::Struct { name, fields } => {
                let mut new_fields: Vec<OwnedTypedStructField> = Vec::new();
                let mut i: usize = 0;
                while i < fields.len()
                    invariant
                        i <= fields.len(),
                        new_fields@.len() == i as int,
                        extends(self.types(), old(self).types()),
                        forall|j: int|
                            0 <= j < i as int ==> (#[trigger] new_fields@[j]).name@
                                == fields@[j].name@ && direct(
                                self.types(),
                                new_fields@[j].type_id,
                                fields@[j].field_type,
                            ),
                        forall|j: int|
                            0 <= j < i as int ==> rt_height(
                                (#[trigger] fields@[j]).field_type,
                            ) <= self.types().len(),
                    decreases fields.len() - i,
                {
                    let ghost pre = self.types();
                    let fid = self.insert_resolved(&fields[i].field_type);
                    proof {
                        assert forall|j: int|
                            0 <= j < i as int implies direct(
                            self.types(),
                            new_fields@[j].type_id,
                            fields@[j].field_type,
                        ) by {
                            lemma_direct_extend(
                                pre,
                                self.types(),
                                new_fields@[j].type_id,
                                fields@[j].field_type,
                            );
                        }
                    }
                    new_fields.push(
                        OwnedTypedStructField { name: fields[i].name.clone(), type_id: fid },
                    );
                    i = i + 1;
                }
                let ghost pre = self.types();
                let id = self.insert(
                    TypeInfo::Struct { name: name.clone(), fields: new_fields },
                );
                proof {
                    assert forall|j: int|
                        0 <= j < fields@.len() implies direct(
                        self.types(),
                        new_fields@[j].type_id,
                        fields@[j].field_type,
                    ) by {
                        lemma_direct_extend(
                            pre,
                            self.types(),
                            new_fields@[j].type_id,
                            fields@[j].field_type,
                        );
                    }
                    lemma_fields_height_le(fields@, pre.len() as nat);
                }
                id
            },
            ResolvedType::Enum { name, variant_types } => {
                let mut new_variants: Vec<TypeId> = Vec::new();
                let mut i: usize = 0;
                while i < variant_types.len()
                    invariant
                        i <= variant_types.len(),
                        new_variants@.len() == i as int,
                        extends(self.types(), old(self).types()),
                        forall|j: int|
                            0 <= j < i as int ==> direct(
                                self.types(),
                                #[trigger] new_variants@[j],
                                variant_types@[j],
                            ),
                        forall|j: int|
                            0 <= j < i as int ==> rt_height(#[trigger] variant_types@[j])
                                <= self.types().len(),
                    decreases variant_types.len() - i,
                {
                    let ghost pre = self.types();
                    let vid = self.insert_resolved(&variant_types[i]);
                    proof {
                        assert forall|j: int|
                            0 <= j < i as int implies direct(
                            self.types(),
                            #[trigger] new_variants@[j],
                            variant_types@[j],
                        ) by {
                            lemma_direct_extend(
                                pre,
                                self.types(),
                                new_variants@[j],
                                variant_types@[j],
                            );
                        }
                    }
                    new_variants.push(vid);
                    i = i + 1;
                }
                let ghost pre = self.types();
                let id = self.insert(
                    TypeInfo::Enum { name: name.clone(), variant_types: new_variants },
                );
                proof {
                    assert forall|j: int|
                        0 <= j < variant_types@.len() implies direct(
                        self.types(),
                        #[trigger] new_variants@[j],
                        variant_types@[j],
                    ) by {
                        lemma_direct_extend(pre, self.types(), new_variants@[j], variant_types@[j]);
                    }
                    lemma_variants_height_le(variant_types@, pre.len() as nat);
                }
                id
            },
        }
    }
}


/// The keyword for an unsigned integer width.
pub open spec fn bits_str(b: IntegerBits) -> Seq<char> {
    match b {
        IntegerBits::Eight => "u8"@,
        IntegerBits::Sixteen => "u16"@,
        IntegerBits::ThirtyTwo => "u32"@,
        IntegerBits::SixtyFour => "u64"@,
    }
}

fn bits_to_str(b: IntegerBits) -> (r: &'static str)
    ensures
        r@ == bits_str(b),
{
    match b {
        IntegerBits::Eight => "u8",
        IntegerBits::Sixteen => "u16",
        IntegerBits::ThirtyTwo => "u32",
        IntegerBits::SixtyFour => "u64",
    }
}

/// The human-readable name of a resolved shape, used in diagnostics.
pub open spec fn friendly_rt(r: ResolvedType) -> Seq<char>
    decreases r,
{
    match r {
        ResolvedType::Str(len) => "str["@ + dec_seq(len as nat) + "]"@,
        ResolvedType::UnsignedInteger(b) => bits_str(b),
        ResolvedType::Boolean => "bool"@,
        ResolvedType::Unit => "()"@,
        ResolvedType::Byte => "byte"@,
        ResolvedType::B256 => "b256"@,
        ResolvedType::Struct { name, .. } => "struct "@ + name@,
        ResolvedType::Enum { name, .. } => "enum "@ + name@,
        ResolvedType::Contract => "contract"@,
        ResolvedType::ContractCaller { abi_name, .. } => abi_name.suffix.name@
            + " contract caller"@,
        ResolvedType::Function { from, to } => "fn("@ + friendly_rt(*from) + ")->"@ + friendly_rt(
            *to,
        ),
        ResolvedType::ErrorRecovery => "\"unknown due to error\""@,
    }
}

/// Whether a shape can appear in a function selector: only primitives and
/// aggregates built from them.
pub open spec fn selector_ok(r: ResolvedType) -> bool
    decreases r,
{
    match r {
        ResolvedType::Str(_) => true,
        ResolvedType::UnsignedInteger(_) => true,
        ResolvedType::Boolean => true,
        ResolvedType::Unit => true,
        ResolvedType::Byte => true,
        ResolvedType::B256 => true,
        ResolvedType::Struct { fields, .. } => forall|i: int|
            0 <= i < fields@.len() ==> selector_ok((#[trigger] fields@[i]).field_type),
        ResolvedType::Enum { variant_types, .. } => forall|i: int|
            0 <= i < variant_types@.len() ==> selector_ok(#[trigger] variant_types@[i]),
        _ => false,
    }
}

/// The name a shape contributes to a function selector.
pub open spec fn selector_str(r: ResolvedType) -> Seq<char>
    decreases r,
{
    match r {
        ResolvedType::Str(len) => "str["@ + dec_seq(len as nat) + "]"@,
        ResolvedType::UnsignedInteger(b) => bits_str(b),
        ResolvedType::Boolean => "bool"@,
        ResolvedType::Unit => "unit"@,
        ResolvedType::Byte => "byte"@,
        ResolvedType::B256 => "b256"@,
        ResolvedType::Struct { fields, .. } => "s("@ + sel_fields(fields@) + ")"@,
        ResolvedType::Enum { variant_types, .. } => "e("@ + sel_variants(variant_types@) + ")"@,
        _ => Seq::empty(),
    }
}

/// Field selector names joined with commas.
pub open spec fn sel_fields(s: Seq<ResolvedStructField>) -> Seq<char>
    decreases s,
{
    if s.len() == 0 {
        Seq::empty()
    } else if s.len() == 1 {
        selector_str(s[0].field_type)
    } else {
        selector_str(s[0].field_type) + ","@ + sel_fields(s.drop_first())
    }
}

/// Variant selector names joined with commas.
pub open spec fn sel_variants(s: Seq<ResolvedType>) -> Seq<char>
    decreases s,
{
    if s.len() == 0 {
        Seq::empty()
    } else if s.len() == 1 {
        selector_str(s[0])
    } else {
        selector_str(s[0]) + ","@ + sel_variants(s.drop_first())
    }
}

proof fn lemma_sel_fields_push(t: Seq<ResolvedStructField>, x: ResolvedStructField)
    ensures
        sel_fields(t.push(x)) == if t.len() == 0 {
            selector_str(x.field_type)
        } else {
            sel_fields(t) + ","@ + selector_str(x.field_type)
        },
    decreases t.len(),
{
    let p = t.push(x);
    if t.len() == 0 {
        assert(p.len() == 1);
        assert(p[0] == x);
    } else {
        assert(p[0] == t[0]);
        assert(p.drop_first() =~= t.drop_first().push(x));
        lemma_sel_fields_push(t.drop_first(), x);
        if t.len() == 1 {
            assert(sel_fields(t) == selector_str(t[0].field_type));
        }
    }
}

proof fn lemma_sel_variants_push(t: Seq<ResolvedType>, x: ResolvedType)
    ensures
        sel_variants(t.push(x)) == if t.len() == 0 {
            selector_str(x)
        } else {
            sel_variants(t) + ","@ + selector_str(x)
        },
    decreases t.len(),
{
    let p = t.push(x);
    if t.len() == 0 {
        assert(p.len() == 1);
        assert(p[0] == x);
    } else {
        assert(p[0] == t[0]);
        assert(p.drop_first() =~= t.drop_first().push(x));
        lemma_sel_variants_push(t.drop_first(), x);
        if t.len() == 1 {
            assert(sel_variants(t) == selector_str(t[0]));
        }
    }
}

/// Whether a shape has a stack size: contract and function types are never
/// laid out on the stack, and the error-recovery shape reaches no back end.
pub open spec fn sized(r: ResolvedType) -> bool
    decreases r,
{
    match r {
        ResolvedType::Str(_) => true,
        ResolvedType::UnsignedInteger(_) => true,
        ResolvedType::Boolean => true,
        ResolvedType::Unit => true,
        ResolvedType::Byte => true,
        ResolvedType::B256 => true,
        ResolvedType::Struct { fields, .. } => forall|i: int|
            0 <= i < fields@.len() ==> sized((#[trigger] fields@[i]).field_type),
        ResolvedType::Enum { variant_types, .. } => forall|i: int|
            0 <= i < variant_types@.len() ==> sized(#[trigger] variant_types@[i]),
        ResolvedType::ContractCaller { .. } => true,
        _ => false,
    }
}

/// The stack size of a shape, in words: strings take a word per eight
/// characters (rounded up), scalars one word (unit none, a 256-bit word
/// four), an enum one tag word plus its widest variant, a struct the sum of
/// its fields, and a contract caller nothing (it exists only in the type
/// system).
pub open spec fn stack_size(r: ResolvedType) -> nat
    decreases r,
{
    match r {
        ResolvedType::Str(len) => ((len + 7) / 8) as nat,
        ResolvedType::UnsignedInteger(_) => 1,
        ResolvedType::Boolean => 1,
        ResolvedType::Unit => 0,
        ResolvedType::Byte => 1,
        ResolvedType::B256 => 4,
        ResolvedType::Struct { fields, .. } => sum_size(fields@),
        ResolvedType::Enum { variant_types, .. } => 1 + max_size(variant_types@),
        ResolvedType::ContractCaller { .. } => 0,
        _ => 0,
    }
}

pub open spec fn sum_size(s: Seq<ResolvedStructField>) -> nat
    decreases s,
{
    if s.len() == 0 {
        0
    } else {
        stack_size(s[0].field_type) + sum_size(s.drop_first())
    }
}

pub open spec fn max_size(s: Seq<ResolvedType>) -> nat
    decreases s,
{
    if s.len() == 0 {
        0
    } else {
        max_nat(stack_size(s[0]), max_size(s.drop_first()))
    }
}

impl ResolvedType {
    /// The human-readable name of this type, for diagnostics.
    pub fn friendly_type_str(&self) -> (s: String)
        ensures
            s@ == friendly_rt(*self),
        decreases *self,
    {
        match self {
            ResolvedType::Str(len) => {
                let mut s = String::from_str("str[");
                s.append(u64_to_string(*len).as_str());
                s.append("]");
                s
            },
            ResolvedType::UnsignedInteger(b) => String::from_str(bits_to_str(*b)),
            ResolvedType::Boolean => String::from_str("bool"),
            ResolvedType::Unit => String::from_str("()"),
            ResolvedType::Byte => String::from_str("byte"),
            ResolvedType::B256 => String::from_str("b256"),
            ResolvedType::Struct { name, .. } => {
                let mut s = String::from_str("struct ");
                s.append(name.as_str());
                s
            },
            ResolvedType::Enum { name, .. } => {
                let mut s = String::from_str("enum ");
                s.append(name.as_str());
                s
            },
            ResolvedType::Contract => String::from_str("contract"),
            ResolvedType::ContractCaller { abi_name, .. } => {
                let mut s = abi_name.suffix.name.clone();
                s.append(" contract caller");
                s
            },
            ResolvedType::Function { from, to } => {
                let mut s = String::from_str("fn(");
                s.append(from.friendly_type_str().as_str());
                s.append(")->");
                s.append(to.friendly_type_str().as_str());
                s
            },
            ResolvedType::ErrorRecovery => String::from_str("\"unknown due to error\""),
        }
    }

    /// The name this type contributes to a function selector. Only
    /// primitives and aggregates of them have one; any other shape is
    /// reported as an invalid ABI type at `error_msg_span`, and a nested
    /// offender is reported the same way.
    #[verifier::loop_isolation(false)]
    pub fn to_selector_name(&self, error_msg_span: &Span) -> (r: CompileResult<String>)
        ensures
            r.warnings@.len() == 0,
            selector_ok(*self) ==> (r.value matches Some(s) && s@ == selector_str(*self)
                && r.errors@.len() == 0),
            !selector_ok(*self) ==> r.value is None && r.errors@.len() == 1 && (r.errors@[0]
                matches CompileError::InvalidAbiType { span } && span == *error_msg_span),
        decreases *self,
    {
        match self {
            ResolvedType::Str(len) => {
                let mut s = String::from_str("str[");
                s.append(u64_to_string(*len).as_str());
                s.append("]");
                ok(s, Vec::new(), Vec::new())
            },
            ResolvedType::UnsignedInteger(b) => ok(
                String::from_str(bits_to_str(*b)),
                Vec::new(),
                Vec::new(),
            ),
            ResolvedType::Boolean => ok(String::from_str("bool"), Vec::new(), Vec::new()),
            ResolvedType::Unit => ok(String::from_str("unit"), Vec::new(), Vec::new()),
            ResolvedType::Byte => ok(String::from_str("byte"), Vec::new(), Vec::new()),
            ResolvedType::B256 => ok(String::from_str("b256"), Vec::new(), Vec::new()),
            ResolvedType::Struct { fields, .. } => {
                let mut buf = String::from_str("s(");
                let mut i: usize = 0;
                while i < fields.len()
                    invariant
                        i <= fields.len(),
                        buf@ == "s("@ + sel_fields(fields@.take(i as int)),
                        forall|j: int|
                            0 <= j < i as int ==> selector_ok((#[trigger] fields@[j]).field_type),
                    decreases fields.len() - i,
                {
                    let nested = fields[i].field_type.to_selector_name(error_msg_span);
                    match nested.value {
                        Some(part) => {
                            if i > 0 {
                                buf.append(",");
                            }
                            buf.append(part.as_str());
                            proof {
                                lemma_sel_fields_push(fields@.take(i as int), fields@[i as int]);
                                assert(fields@.take(i as int).push(fields@[i as int]) =~= fields@
                                    .take(i as int + 1));
                            }
                        },
                        None => {
                            return nested;
                        },
                    }
                    i = i + 1;
                }
                buf.append(")");
                proof {
                    assert(fields@.take(fields@.len() as int) =~= fields@);
                    assert(buf@ =~= selector_str(*self));
                }
                ok(buf, Vec::new(), Vec::new())
            },
            ResolvedType::Enum { variant_types, .. } => {
                let mut buf = String::from_str("e(");
                let mut i: usize = 0;
                while i < variant_types.len()
                    invariant
                        i <= variant_types.len(),
                        buf@ == "e("@ + sel_variants(variant_types@.take(i as int)),
                        forall|j: int|
                            0 <= j < i as int ==> selector_ok(#[trigger] variant_types@[j]),
                    decreases variant_types.len() - i,
                {
                    let nested = variant_types[i].to_selector_name(error_msg_span);
                    match nested.value {
                        Some(part) => {
                            if i > 0 {
                                buf.append(",");
                            }
                            buf.append(part.as_str());
                            proof {
                                lemma_sel_variants_push(
                                    variant_types@.take(i as int),
                                    variant_types@[i as int],
                                );
                                assert(variant_types@.take(i as int).push(variant_types@[i as int])
                                    =~= variant_types@.take(i as int + 1));
                            }
                        },
                        None => {
                            return nested;
                        },
                    }
                    i = i + 1;
                }
                buf.append(")");
                proof {
                    assert(variant_types@.take(variant_types@.len() as int) =~= variant_types@);
                    assert(buf@ =~= selector_str(*self));
                }
                ok(buf, Vec::new(), Vec::new())
            },
            _ => {
                let mut errors: Vec<CompileError> = Vec::new();
                errors.push(CompileError::InvalidAbiType { span: *error_msg_span });
                err(Vec::new(), errors)
            },
        }
    }

    /// The stack size of this type in words, for allocating stack memory.
    #[verifier::loop_isolation(false)]
    pub fn stack_size_of(&self) -> (size: u64)
        requires
            sized(*self),
            stack_size(*self) <= u64::MAX,
        ensures
            size == stack_size(*self),
        decreases *self,
    {
        match self {
            ResolvedType::Str(len) => {
                let l = *len;
                let words = l / 8 + if l % 8 == 0 {
                    0
                } else {
                    1
                };
                proof {
                    assert(words == ((l + 7) / 8) as u64);
                }
                words
            },
            ResolvedType::UnsignedInteger(_) => 1,
            ResolvedType::Boolean => 1,
            ResolvedType::Unit => 0,
            ResolvedType::Byte => 1,
            ResolvedType::B256 => 4,
            ResolvedType::ContractCaller { .. } => 0,
            ResolvedType::Struct { fields, .. } => {
                let ghost all = fields@;
                let mut acc: u64 = 0;
                let mut i: usize = 0;
                proof {
                    assert(all.skip(0int) =~= all);
                }
                while i < fields.len()
                    invariant
                        i <= all.len(),
                        acc + sum_size(all.skip(i as int)) == sum_size(all),
                    decreases all.len() - i,
                {
                    proof {
                        assert(all.skip(i as int)[0] == all[i as int]);
                        assert(all.skip(i as int).drop_first() =~= all.skip(i as int + 1));
                    }
                    let part = fields[i].field_type.stack_size_of();
                    acc = acc + part;
                    i = i + 1;
                }
                proof {
                    assert(all.skip(all.len() as int) =~= Seq::<ResolvedStructField>::empty());
                }
                acc
            },
            ResolvedType::Enum { variant_types, .. } => {
                let ghost all = variant_types@;
                let mut acc: u64 = 0;
                let mut i: usize = 0;
                proof {
                    assert(all.skip(0int) =~= all);
                }
                while i < variant_types.len()
                    invariant
                        i <= all.len(),
                        max_nat(acc as nat, max_size(all.skip(i as int))) == max_size(all),
                        acc <= max_size(all),
                    decreases all.len() - i,
                {
                    proof {
                        assert(all.skip(i as int)[0] == all[i as int]);
                        assert(all.skip(i as int).drop_first() =~= all.skip(i as int + 1));
                    }
                    let part = variant_types[i].stack_size_of();
                    if part > acc {
                        acc = part;
                    }
                    i = i + 1;
                }
                proof {
                    assert(all.skip(all.len() as int) =~= Seq::<ResolvedType>::empty());
                }
                1 + acc
            },
            _ => {
                proof {
                    assert(false);
                }
                0
            },
        }
    }
}


fn ident_eq_exec(a: &Ident, b: &Ident) -> (r: bool)
    ensures
        r == ident_eq(*a, *b),
{
    a.name.eq(&b.name) && a.span.start == b.span.start && a.span.end == b.span.end
}

#[verifier::loop_isolation(false)]
fn call_path_eq_exec(a: &CallPath, b: &CallPath) -> (r: bool)
    ensures
        r == call_path_eq(*a, *b),
{
    if a.prefixes.len() != b.prefixes.len() {
        return false;
    }
    let mut i: usize = 0;
    while i < a.prefixes.len()
        invariant
            i <= a.prefixes.len(),
            forall|j: int| 0 <= j < i as int ==> ident_eq(#[trigger] a.prefixes@[j], b.prefixes@[j]),
        decreases a.prefixes.len() - i,
    {
        if !ident_eq_exec(&a.prefixes[i], &b.prefixes[i]) {
            assert(!ident_eq(a.prefixes@[i as int], b.prefixes@[i as int]));
            return false;
        }
        i = i + 1;
    }
    ident_eq_exec(&a.suffix, &b.suffix)
}

impl ResolvedType {
    /// Structural equality of resolved shapes, as [`rt_eq`] states it.
    #[verifier::loop_isolation(false)]
    pub fn eq_shape(&self, other: &ResolvedType) -> (r: bool)
        ensures
            r == rt_eq(*self, *other),
        decreases *self,
    {
        match (self, other) {
            (ResolvedType::Str(l1), ResolvedType::Str(l2)) => *l1 == *l2,
            (ResolvedType::UnsignedInteger(b1), ResolvedType::UnsignedInteger(b2)) => {
                b1.bit_width() == b2.bit_width()
            },
            (ResolvedType::Boolean, ResolvedType::Boolean) => true,
            (ResolvedType::Unit, ResolvedType::Unit) => true,
            (ResolvedType::Byte, ResolvedType::Byte) => true,
            (ResolvedType::B256, ResolvedType::B256) => true,
            (
                ResolvedType::Struct { name: n1, fields: f1 },
                ResolvedType::Struct { name: n2, fields: f2 },
            ) => {
                if !n1.eq(n2) {
                    return false;
                }
                if f1.len() != f2.len() {
                    return false;
                }
                let mut i: usize = 0;
                while i < f1.len()
                    invariant
                        i <= f1.len(),
                        forall|j: int|
                            0 <= j < i as int ==> (#[trigger] f1@[j]).name@ == f2@[j].name@
                                && rt_eq(f1@[j].field_type, f2@[j].field_type),
                    decreases f1.len() - i,
                {
                    if !f1[i].name.eq(&f2[i].name) {
                        assert(!((f1@[i as int]).name@ == f2@[i as int].name@));
                        return false;
                    }
                    if !f1[i].field_type.eq_shape(&f2[i].field_type) {
                        assert(!rt_eq((f1@[i as int]).field_type, f2@[i as int].field_type));
                        return false;
                    }
                    i = i + 1;
                }
                true
            },
            (
                ResolvedType::Enum { name: n1, variant_types: v1 },
                ResolvedType::Enum { name: n2, variant_types: v2 },
            ) => {
                if !n1.eq(n2) {
                    return false;
                }
                if v1.len() != v2.len() {
                    return false;
                }
                let mut i: usize = 0;
                while i < v1.len()
                    invariant
                        i <= v1.len(),
                        forall|j: int| 0 <= j < i as int ==> rt_eq(#[trigger] v1@[j], v2@[j]),
                    decreases v1.len() - i,
                {
                    if !v1[i].eq_shape(&v2[i]) {
                        assert(!rt_eq(v1@[i as int], v2@[i as int]));
                        return false;
                    }
                    i = i + 1;
                }
                true
            },
            (ResolvedType::Contract, ResolvedType::Contract) => true,
            (
                ResolvedType::ContractCaller { abi_name: a1, .. },
                ResolvedType::ContractCaller { abi_name: a2, .. },
            ) => call_path_eq_exec(a1, a2),
            (
                ResolvedType::Function { from: fr1, to: to1 },
                ResolvedType::Function { from: fr2, to: to2 },
            ) => fr1.eq_shape(fr2) && to1.eq_shape(to2),
            (ResolvedType::ErrorRecovery, ResolvedType::ErrorRecovery) => true,
            _ => false,
        }
    }
}

impl Engine {
    /// Holds a checked expression's type against the expected one, where a
    /// caller supplied an expectation: the resolved shapes must agree
    /// structurally, else a type mismatch naming both shapes is reported at
    /// `span`. No expectation, no finding; and the error-recovery sentinel
    /// propagates silently — it stands for a defect already reported, and
    /// never provokes a second diagnostic.
    pub fn check_expected_type(&self, found: TypeId, expected: &Option<TypeId>, span: Span) -> (r:
        Option<CompileError>)
        ensures
            match *expected {
                Option::None => r is None,
                Option::Some(t) => exists|ra: ResolvedType, rb: ResolvedType|
                    {
                        &&& resolves_to(self.types(), found, ra)
                        &&& resolves_to(self.types(), t, rb)
                        &&& (r is None <==> (rt_eq(ra, rb) || ra is ErrorRecovery
                            || rb is ErrorRecovery))
                    } && (r matches Some(e) ==> e matches CompileError::TypeMismatch {
                        expected: ex,
                        received: re,
                        span: sp,
                    } && sp == span),
            },
    {
        match expected {
            None => None,
            Some(t) => {
                let ra = self.resolve(found);
                let rb = self.resolve(*t);
                let ra_recovery = match &ra {
                    ResolvedType::ErrorRecovery => true,
                    _ => false,
                };
                let rb_recovery = match &rb {
                    ResolvedType::ErrorRecovery => true,
                    _ => false,
                };
                if ra.eq_shape(&rb) || ra_recovery || rb_recovery {
                    proof {
                        assert(resolves_to(self.types(), found, ra) && resolves_to(
                            self.types(),
                            *t,
                            rb,
                        ) && (rt_eq(ra, rb) || ra is ErrorRecovery || rb is ErrorRecovery));
                    }
                    None
                } else {
                    let e = CompileError::TypeMismatch {
                        expected: rb.friendly_type_str(),
                        received: ra.friendly_type_str(),
                        span,
                    };
                    proof {
                        assert(resolves_to(self.types(), found, ra) && resolves_to(
                            self.types(),
                            *t,
                            rb,
                        ) && !(rt_eq(ra, rb) || ra is ErrorRecovery || rb is ErrorRecovery));
                    }
                    Some(e)
                }
            },
        }
    }
}
/// Whether `target.width() < source.width()`: the condition under which a
/// numeric cast is flagged as losing precision.
pub open spec fn cast_warns(source: IntegerBits, target: IntegerBits) -> bool {
    target.width() < source.width()
}

/// Casting to a width at least as wide never warns; casting to a strictly
/// narrower width always warns. Together with the contract of
/// [`ResolvedType::numeric_cast_compat`] this holds for every ordered pair
/// of the supported widths.
pub proof fn lemma_numeric_cast_monotonicity(a: IntegerBits, b: IntegerBits)
    ensures
        a.width() <= b.width() ==> !cast_warns(a, b),
        a.width() < b.width() ==> cast_warns(b, a),
{
}

impl ResolvedType {
    /// Types whose values fit in one word and are copied rather than moved.
    pub fn is_copy_type(&self) -> (r: bool)
        ensures
            r == (self is UnsignedInteger || self is Boolean || self is Unit || self is Byte),
    {
        match self {
            ResolvedType::UnsignedInteger(_)
            | ResolvedType::Boolean
            | ResolvedType::Unit
            | ResolvedType::Byte => true,
            _ => false,
        }
    }

    pub fn is_numeric(&self) -> (r: bool)
        ensures
            r == (self is UnsignedInteger),
    {
        match self {
            ResolvedType::UnsignedInteger(_) => true,
            _ => false,
        }
    }

    /// Whether a value of this numeric type can be cast to `other` without
    /// losing precision. Widening (and same-width) casts succeed silently;
    /// a narrowing cast reports a precision-loss warning, never an error.
    pub fn numeric_cast_compat(&self, other: &ResolvedType) -> (r: Result<(), Warning>)
        requires
            self is UnsignedInteger,
            other is UnsignedInteger,
        ensures
            r is Ok <==> !cast_warns(self->UnsignedInteger_0, other->UnsignedInteger_0),
            r matches Err(w) ==> w matches Warning::LossOfPrecision { initial_type, cast_to }
                && initial_type == self->UnsignedInteger_0 && cast_to
                == other->UnsignedInteger_0,
    {
        let source = match self {
            ResolvedType::UnsignedInteger(b) => *b,
            _ => {
                assert(false);
                IntegerBits::Eight
            },
        };
        let target = match other {
            ResolvedType::UnsignedInteger(b) => *b,
            _ => {
                assert(false);
                IntegerBits::Eight
            },
        };
        if target.bit_width() < source.bit_width() {
            Err(Warning::LossOfPrecision { initial_type: source, cast_to: target })
        } else {
            Ok(())
        }
    }
}

} // verus!
