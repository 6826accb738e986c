//! The type registry: an arena mapping opaque handles to type descriptors.
//! Handles are only meaningful inside the engine that created them; a
//! descriptor may defer to another handle through a reference descriptor,
//! and deferred chains are resolved with a bounded number of dereferences
//! so that malformed (cyclic) input fails closed instead of diverging.

use vstd::prelude::*;
use vstd::string::StringExecFns;

use std::rc::Rc;

use crate::decimal::{dec_seq, u64_to_string};
use crate::span::{call_path_eq, CallPath, Ident};
use crate::typed_expression::TypedExpression;

verus! {

/// The bit widths of the unsigned integer primitives.
#[derive(Clone, Copy, Debug, PartialEq, Eq, Structural)]
pub enum IntegerBits {
    Eight,
    Sixteen,
    ThirtyTwo,
    SixtyFour,
}

impl IntegerBits {
    /// The number of bits this width stands for.
    pub open spec fn width(self) -> nat {
        match self {
            IntegerBits::Eight => 8,
            IntegerBits::Sixteen => 16,
            IntegerBits::ThirtyTwo => 32,
            IntegerBits::SixtyFour => 64,
        }
    }

    pub fn bit_width(&self) -> (w: u64)
        ensures
            w == self.width(),
    {
        match self {
            IntegerBits::Eight => 8,
            IntegerBits::Sixteen => 16,
            IntegerBits::ThirtyTwo => 32,
            IntegerBits::SixtyFour => 64,
        }
    }
}

/// An opaque handle referencing one entry in the registry's arena.
/// Equality of handles is identity; two distinct handles may still resolve
/// to structurally equal shapes.
#[derive(Clone, Copy, Debug, PartialEq, Eq, Structural)]
pub struct TypeId(pub usize);

/// A named field of a struct shape, typed by a registry handle.
#[derive(Clone, Debug)]
pub struct OwnedTypedStructField {
    pub name: String,
    pub type_id: TypeId,
}

pub open spec fn struct_field_eq(a: OwnedTypedStructField, b: OwnedTypedStructField) -> bool {
    a.name@ == b.name@ && a.type_id == b.type_id
}

/// One generic parameter of a declaration: the name under which it was
/// declared and the placeholder handle it introduces.
#[derive(Clone, Debug)]
pub struct TypeParameter {
    pub name: Ident,
    pub type_id: TypeId,
}

impl TypeParameter {
    pub fn clone_param(&self) -> (r: TypeParameter)
        ensures
            r.name.name@ == self.name.name@,
            r.name.span == self.name.span,
            r.type_id == self.type_id,
    {
        TypeParameter { name: self.name.clone_ident(), type_id: self.type_id }
    }
}

/// The registry's stored shape for a handle.
#[derive(Debug)]
pub enum TypeInfo {
    /// A string whose length is fixed at compile time.
    Str(u64),
    UnsignedInteger(IntegerBits),
    Boolean,
    Unit,
    Byte,
    B256,
    Struct { name: String, fields: Vec<OwnedTypedStructField> },
    Enum { name: String, variant_types: Vec<TypeId> },
    /// The contract's own type as a whole, used when implementing an ABI on
    /// the contract itself.
    Contract,
    /// A type whose values can issue calls into the contract named by
    /// `abi_name`, located at a runtime `address` expression.
    ContractCaller { abi_name: CallPath, address: Option<Rc<TypedExpression>> },
    Function { from: TypeId, to: TypeId },
    /// An alias deferring to another handle; used for interning and for
    /// substitution without copying.
    Ref(TypeId),
    /// A generic-parameter placeholder, to be substituted before resolution.
    UnknownGeneric { name: String },
    /// The `Self` placeholder inside a declaration that mentions its own type.
    SelfType,
    /// The error-recovery sentinel: checking continues after a reported
    /// defect without producing cascading diagnostics.
    ErrorRecovery,
}

/// Structural agreement of two descriptors. The runtime address expression
/// of a contract caller takes no part in it: that expression is evaluated,
/// never compared.
pub open spec fn type_info_eq(a: TypeInfo, b: TypeInfo) -> bool {
    match (a, b) {
        (TypeInfo::Str(l1), TypeInfo::Str(l2)) => l1 == l2,
        (TypeInfo::UnsignedInteger(b1), TypeInfo::UnsignedInteger(b2)) => b1 == b2,
        (TypeInfo::Boolean, TypeInfo::Boolean) => true,
        (TypeInfo::Unit, TypeInfo::Unit) => true,
        (TypeInfo::Byte, TypeInfo::Byte) => true,
        (TypeInfo::B256, TypeInfo::B256) => true,
        (
            TypeInfo::Struct { name: n1, fields: f1 },
            TypeInfo::Struct { name: n2, fields: f2 },
        ) => {
            &&& n1@ == n2@
            &&& f1@.len() == f2@.len()
            &&& forall|i: int| 0 <= i < f1@.len() ==> struct_field_eq(#[trigger] f1@[i], f2@[i])
        },
        (
            TypeInfo::Enum { name: n1, variant_types: v1 },
            TypeInfo::Enum { name: n2, variant_types: v2 },
        ) => n1@ == n2@ && v1@ == v2@,
        (TypeInfo::Contract, TypeInfo::Contract) => true,
        (
            TypeInfo::ContractCaller { abi_name: a1, .. },
            TypeInfo::ContractCaller { abi_name: a2, .. },
        ) => call_path_eq(a1, a2),
        (
            TypeInfo::Function { from: fr1, to: to1 },
            TypeInfo::Function { from: fr2, to: to2 },
        ) => fr1 == fr2 && to1 == to2,
        (TypeInfo::Ref(r1), TypeInfo::Ref(r2)) => r1 == r2,
        (TypeInfo::UnknownGeneric { name: n1 }, TypeInfo::UnknownGeneric { name: n2 }) => n1@
            == n2@,
        (TypeInfo::SelfType, TypeInfo::SelfType) => true,
        (TypeInfo::ErrorRecovery, TypeInfo::ErrorRecovery) => true,
        _ => false,
    }
}

/// `ts2` carries everything `ts1` does: entries are only ever appended to
/// the registry, so a later view of the arena extends an earlier one.
pub open spec fn extends(ts2: Seq<TypeInfo>, ts1: Seq<TypeInfo>) -> bool {
    ts1.len() <= ts2.len() && forall|k: int| 0 <= k < ts1.len() ==> ts2[k] == ts1[k]
}

/// The arena. Handles index into `slots`; entries are never mutated or
/// removed once inserted, only appended, so a handle stays meaningful for
/// the whole compilation the engine is scoped to.
pub struct Engine {
    slots: Vec<TypeInfo>,
}

/// Following reference descriptors from `id` for at most `fuel` steps:
/// `None` when the fuel runs out (a cycle), otherwise the first handle that
/// is not a reference (which may be a dangling handle, left to the caller).
pub open spec fn follow_spec(ts: Seq<TypeInfo>, id: TypeId, fuel: nat) -> Option<TypeId>
    decreases fuel,
{
    if fuel == 0 {
        None
    } else if id.0 >= ts.len() {
        Some(id)
    } else {
        match ts[id.0 as int] {
            TypeInfo::Ref(next) => follow_spec(ts, next, (fuel - 1) as nat),
            _ => Some(id),
        }
    }
}

/// Reference chains are followed with one more step of fuel than there are
/// entries: any chain longer than that must have revisited an entry.
pub open spec fn followed(ts: Seq<TypeInfo>, id: TypeId) -> Option<TypeId> {
    follow_spec(ts, id, ts.len() + 1)
}

/// The first entry of `mapping` whose parameter is declared under `name`,
/// if any.
pub open spec fn param_match(mapping: Seq<(TypeParameter, TypeId)>, name: Seq<char>) -> Option<
    TypeId,
>
    decreases mapping.len(),
{
    if mapping.len() == 0 {
        None
    } else if mapping[0].0.name.name@ == name {
        Some(mapping[0].1)
    } else {
        param_match(mapping.drop_first(), name)
    }
}

/// Matching is by parameter name and substituted handle alone: two mapping
/// lists that agree on those agree on every lookup.
pub proof fn lemma_param_match_congruent(
    m1: Seq<(TypeParameter, TypeId)>,
    m2: Seq<(TypeParameter, TypeId)>,
    name: Seq<char>,
)
    requires
        m1.len() == m2.len(),
        forall|i: int|
            0 <= i < m1.len() ==> (#[trigger] m1[i]).0.name.name@ == m2[i].0.name.name@ && m1[i].1
                == m2[i].1,
    ensures
        param_match(m1, name) == param_match(m2, name),
    decreases m1.len(),
{
    if m1.len() > 0 && m1[0].0.name.name@ != name {
        assert forall|i: int|
            0 <= i < m1.drop_first().len() implies (#[trigger] m1.drop_first()[i]).0.name.name@
            == m2.drop_first()[i].0.name.name@ && m1.drop_first()[i].1 == m2.drop_first()[i].1 by {
            assert(m1.drop_first()[i] == m1[i + 1]);
            assert(m2.drop_first()[i] == m2[i + 1]);
        }
        lemma_param_match_congruent(m1.drop_first(), m2.drop_first(), name);
    }
}

/// What `matches_type_parameter` answers: the concrete handle that `id`
/// maps to under `mapping`, present exactly when `id` leads to a
/// generic-parameter placeholder covered by the mapping.
pub open spec fn matches_spec(
    ts: Seq<TypeInfo>,
    id: TypeId,
    mapping: Seq<(TypeParameter, TypeId)>,
) -> Option<TypeId> {
    match followed(ts, id) {
        Option::None => Option::None,
        Option::Some(f) => {
            if f.0 < ts.len() {
                match ts[f.0 as int] {
                    TypeInfo::UnknownGeneric { name } => param_match(mapping, name@),
                    _ => Option::None,
                }
            } else {
                Option::None
            }
        },
    }
}

/// The handle `id` with a self-type slot replaced: when `id` refers to an
/// entry holding the `Self` placeholder it becomes `self_type`, otherwise it
/// is left alone.
pub open spec fn deself_id(ts: Seq<TypeInfo>, id: TypeId, self_type: TypeId) -> TypeId {
    if id.0 < ts.len() && ts[id.0 as int] is SelfType {
        self_type
    } else {
        id
    }
}

/// How a descriptor inserted by `resolve_with_self` relates to the given
/// one: the same shape, with every embedded `Self` placeholder rewritten to
/// `self_type`.
pub open spec fn deselfed(ts: Seq<TypeInfo>, a: TypeInfo, b: TypeInfo, self_type: TypeId) -> bool {
    match (a, b) {
        (TypeInfo::Struct { name: n1, fields: f1 }, TypeInfo::Struct { name: n2, fields: f2 }) => {
            &&& n1@ == n2@
            &&& f1@.len() == f2@.len()
            &&& forall|i: int|
                0 <= i < f1@.len() ==> (#[trigger] f2@[i]).name@ == f1@[i].name@ && f2@[i].type_id
                    == deself_id(ts, f1@[i].type_id, self_type)
        },
        (
            TypeInfo::Enum { name: n1, variant_types: v1 },
            TypeInfo::Enum { name: n2, variant_types: v2 },
        ) => {
            &&& n1@ == n2@
            &&& v1@.len() == v2@.len()
            &&& forall|i: int|
                0 <= i < v1@.len() ==> #[trigger] v2@[i] == deself_id(ts, v1@[i], self_type)
        },
        (TypeInfo::Function { from: fr1, to: to1 }, TypeInfo::Function { from: fr2, to: to2 }) => {
            fr2 == deself_id(ts, fr1, self_type) && to2 == deself_id(ts, to1, self_type)
        },
        (TypeInfo::Ref(r1), TypeInfo::Ref(r2)) => r2 == deself_id(ts, r1, self_type),
        _ => type_info_eq(a, b),
    }
}

impl Engine {
    /// The descriptors stored so far, in insertion order.
    pub closed spec fn types(self) -> Seq<TypeInfo> {
        self.slots@
    }

    /// A handle is valid when it indexes an existing entry.
    pub open spec fn valid(self, id: TypeId) -> bool {
        id.0 < self.types().len()
    }

    /// A fresh registry, scoped to one compilation.
    pub fn new() -> (e: Engine)
        ensures
            e.types() == Seq::<TypeInfo>::empty(),
    {
        Engine { slots: Vec::new() }
    }

    pub fn len(&self) -> (n: usize)
        ensures
            n == self.types().len(),
    {
        self.slots.len()
    }

    /// The descriptor stored behind a valid handle.
    pub fn get(&self, id: TypeId) -> (r: &TypeInfo)
        requires
            self.valid(id),
        ensures
            *r == self.types()[id.0 as int],
    {
        &self.slots[id.0]
    }

    /// Stores a descriptor and hands back a fresh handle for it. Always
    /// succeeds; no deduplication is attempted.
    pub fn insert(&mut self, info: TypeInfo) -> (id: TypeId)
        ensures
            final(self).types() == old(self).types().push(info),
            id.0 == old(self).types().len(),
            extends(final(self).types(), old(self).types()),
    {
        let id = TypeId(self.slots.len());
        self.slots.push(info);
        id
    }

    /// Follows reference descriptors from `id` until a non-reference entry
    /// (or a dangling handle) is reached; `None` means the chain was longer
    /// than the arena, i.e. cyclic.
    pub fn follow_ref_chain(&self, id: TypeId) -> (r: Option<TypeId>)
        ensures
            r == followed(self.types(), id),
    {
        let fuel: u128 = self.slots.len() as u128 + 1;
        self.follow_inner(id, fuel)
    }

    fn follow_inner(&self, id: TypeId, fuel: u128) -> (r: Option<TypeId>)
        ensures
            r == follow_spec(self.types(), id, fuel as nat),
        decreases fuel,
    {
        if fuel == 0 {
            None
        } else if id.0 >= self.slots.len() {
            Some(id)
        } else {
            match &self.slots[id.0] {
                TypeInfo::Ref(next) => self.follow_inner(*next, fuel - 1),
                _ => Some(id),
            }
        }
    }

    /// The concrete handle that a generic-parameter placeholder maps to
    /// under the substitution, or `None` when `id` does not lead to a
    /// parameter covered by the list.
    #[verifier::loop_isolation(false)]
    pub fn matches_type_parameter(&self, id: TypeId, mapping: &Vec<(TypeParameter, TypeId)>) -> (r:
        Option<TypeId>)
        ensures
            r == matches_spec(self.types(), id, mapping@),
    {
        match self.follow_ref_chain(id) {
            None => None,
            Some(f) => {
                if f.0 >= self.slots.len() {
                    return None;
                }
                match &self.slots[f.0] {
                    TypeInfo::UnknownGeneric { name } => {
                        assert(mapping@.skip(0int) =~= mapping@);
                        let mut i: usize = 0;
                        while i < mapping.len()
                            invariant
                                i <= mapping.len(),
                                param_match(mapping@, name@) == param_match(
                                    mapping@.skip(i as int),
                                    name@,
                                ),
                        decreases mapping.len() - i,
                        {
                            if mapping[i].0.name.name.eq(name) {
                                assert(mapping@.skip(i as int)[0] == mapping@[i as int]);
                                assert(param_match(mapping@.skip(i as int), name@) == Some(
                                    mapping@[i as int].1,
                                ));
                                return Some(mapping[i].1);
                            }
                            assert(mapping@.skip(i as int).drop_first() =~= mapping@.skip(
                                i as int + 1,
                            ));
                            i = i + 1;
                        }
                        assert(mapping@.skip(i as int).len() == 0);
                        None
                    },
                    _ => None,
                }
            },
        }
    }

    fn deself(&self, id: TypeId, self_type: TypeId) -> (r: TypeId)
        ensures
            r == deself_id(self.types(), id, self_type),
    {
        if id.0 < self.slots.len() {
            match &self.slots[id.0] {
                TypeInfo::SelfType => self_type,
                _ => id,
            }
        } else {
            id
        }
    }

    /// Inserts `info`, first rewriting any embedded `Self` placeholder to
    /// `self_type`: the descriptor itself when it is the placeholder, and
    /// every embedded handle that refers to a placeholder entry. Used when
    /// typing declarations that mention their own type.
    pub fn resolve_with_self(&mut self, info: &TypeInfo, self_type: TypeId) -> (id: TypeId)
        ensures
            info is SelfType ==> id == self_type && final(self).types() == old(self).types(),
            !(info is SelfType) ==> {
                &&& final(self).types().len() == old(self).types().len() + 1
                &&& id.0 == old(self).types().len()
                &&& extends(final(self).types(), old(self).types())
                &&& deselfed(old(self).types(), *info, final(self).types().last(), self_type)
            },
    {
        let rewritten: TypeInfo = match info {
            TypeInfo::SelfType => {
                return self_type;
            },
            TypeInfo::Str(l) => TypeInfo::Str(*l),
            TypeInfo::UnsignedInteger(b) => TypeInfo::UnsignedInteger(*b),
            TypeInfo::Boolean => TypeInfo::Boolean,
            TypeInfo::Unit => TypeInfo::Unit,
            TypeInfo::Byte => TypeInfo::Byte,
            TypeInfo::B256 => TypeInfo::B256,
            TypeInfo::Contract => TypeInfo::Contract,
            TypeInfo::ErrorRecovery => TypeInfo::ErrorRecovery,
            TypeInfo::UnknownGeneric { name } => TypeInfo::UnknownGeneric { name: name.clone() },
            TypeInfo::Ref(r) => TypeInfo::Ref(self.deself(*r, self_type)),
            TypeInfo::Function { from, to } => TypeInfo::Function {
                from: self.deself(*from, self_type),
                to: self.deself(*to, self_type),
            },
            TypeInfo::Struct { name, fields } => {
                let mut new_fields: Vec<OwnedTypedStructField> = Vec::new();
                let mut i: usize = 0;
                while i < fields.len()
                    invariant
                        i <= fields.len(),
                        new_fields@.len() == i as int,
                        forall|j: int|
                            0 <= j < i as int ==> (#[trigger] new_fields@[j]).name@
                                == fields@[j].name@ && new_fields@[j].type_id == deself_id(
                                self.types(),
                                fields@[j].type_id,
                                self_type,
                            ),
                    decreases fields.len() - i,
                {
                    new_fields.push(
                        OwnedTypedStructField {
                            name: fields[i].name.clone(),
                            type_id: self.deself(fields[i].type_id, self_type),
                        },
                    );
                    i = i + 1;
                }
                TypeInfo::Struct { name: name.clone(), fields: new_fields }
            },
            TypeInfo::Enum { name, variant_types } => {
                let mut new_variants: Vec<TypeId> = Vec::new();
                let mut i: usize = 0;
                while i < variant_types.len()
                    invariant
                        i <= variant_types.len(),
                        new_variants@.len() == i as int,
                        forall|j: int|
                            0 <= j < i as int ==> #[trigger] new_variants@[j] == deself_id(
                                self.types(),
                                variant_types@[j],
                                self_type,
                            ),
                    decreases variant_types.len() - i,
                {
                    new_variants.push(self.deself(variant_types[i], self_type));
                    i = i + 1;
                }
                TypeInfo::Enum { name: name.clone(), variant_types: new_variants }
            },
            TypeInfo::ContractCaller { abi_name, address } => TypeInfo::ContractCaller {
                abi_name: abi_name.clone_path(),
                address: address.clone(),
            },
        };
        let id = self.insert(rewritten);
        id
    }

}

/// The human-readable name of the type behind a handle, following at most
/// `fuel` reference steps; used by diagnostics and the pretty-printer.
pub open spec fn friendly_id(ts: Seq<TypeInfo>, id: TypeId, fuel: nat) -> Seq<char>
    decreases fuel,
{
    if fuel == 0 || id.0 >= ts.len() {
        "\"unknown due to error\""@
    } else {
        match ts[id.0 as int] {
            TypeInfo::Str(l) => "str["@ + dec_seq(l as nat) + "]"@,
            TypeInfo::UnsignedInteger(b) => match b {
                IntegerBits::Eight => "u8"@,
                IntegerBits::Sixteen => "u16"@,
                IntegerBits::ThirtyTwo => "u32"@,
                IntegerBits::SixtyFour => "u64"@,
            },
            TypeInfo::Boolean => "bool"@,
            TypeInfo::Unit => "()"@,
            TypeInfo::Byte => "byte"@,
            TypeInfo::B256 => "b256"@,
            TypeInfo::Struct { name, .. } => "struct "@ + name@,
            TypeInfo::Enum { name, .. } => "enum "@ + name@,
            TypeInfo::Contract => "contract"@,
            TypeInfo::ContractCaller { abi_name, .. } => abi_name.suffix.name@
                + " contract caller"@,
            TypeInfo::Function { from, to } => "fn("@ + friendly_id(ts, from, (fuel - 1) as nat)
                + ")->"@ + friendly_id(ts, to, (fuel - 1) as nat),
            TypeInfo::Ref(next) => friendly_id(ts, next, (fuel - 1) as nat),
            TypeInfo::UnknownGeneric { name } => name@,
            TypeInfo::SelfType => "Self"@,
            TypeInfo::ErrorRecovery => "\"unknown due to error\""@,
        }
    }
}

/// The friendly name with the standard fuel.
pub open spec fn friendly_of(ts: Seq<TypeInfo>, id: TypeId) -> Seq<char> {
    friendly_id(ts, id, (ts.len() + 1) as nat)
}

/// Matching a handle against a substitution without following references:
/// the handle is substituted exactly when its own entry is a covered
/// generic-parameter placeholder. This is the rule the tree monomorphizer
/// applies at every embedded handle.
pub open spec fn matches_raw(
    ts: Seq<TypeInfo>,
    id: TypeId,
    mapping: Seq<(TypeParameter, TypeId)>,
) -> Option<TypeId> {
    if id.0 < ts.len() {
        match ts[id.0 as int] {
            TypeInfo::UnknownGeneric { name } => param_match(mapping, name@),
            _ => Option::None,
        }
    } else {
        Option::None
    }
}

impl Engine {
    /// The human-readable name of the type behind `id`, for diagnostics.
    pub fn friendly_type_str_of(&self, id: TypeId) -> (s: String)
        ensures
            s@ == friendly_of(self.types(), id),
    {
        let fuel: u128 = self.slots.len() as u128 + 1;
        self.friendly_inner(id, fuel)
    }

    fn friendly_inner(&self, id: TypeId, fuel: u128) -> (s: String)
        ensures
            s@ == friendly_id(self.types(), id, fuel as nat),
        decreases fuel,
    {
        if fuel == 0 || id.0 >= self.slots.len() {
            return String::from_str("\"unknown due to error\"");
        }
        match &self.slots[id.0] {
            TypeInfo::Str(l) => {
                let mut s = String::from_str("str[");
                s.append(u64_to_string(*l).as_str());
                s.append("]");
                s
            },
            TypeInfo::UnsignedInteger(b) => match b {
                IntegerBits::Eight => String::from_str("u8"),
                IntegerBits::Sixteen => String::from_str("u16"),
                IntegerBits::ThirtyTwo => String::from_str("u32"),
                IntegerBits::SixtyFour => String::from_str("u64"),
            },
            TypeInfo::Boolean => String::from_str("bool"),
            TypeInfo::Unit => String::from_str("()"),
            TypeInfo::Byte => String::from_str("byte"),
            TypeInfo::B256 => String::from_str("b256"),
            TypeInfo::Struct { name, .. } => {
                let mut s = String::from_str("struct ");
                s.append(name.as_str());
                s
            },
            TypeInfo::Enum { name, .. } => {
                let mut s = String::from_str("enum ");
                s.append(name.as_str());
                s
            },
            TypeInfo::Contract => String::from_str("contract"),
            TypeInfo::ContractCaller { abi_name, .. } => {
                let mut s = abi_name.suffix.name.clone();
                s.append(" contract caller");
                s
            },
            TypeInfo::Function { from, to } => {
                let mut s = String::from_str("fn(");
                s.append(self.friendly_inner(*from, fuel - 1).as_str());
                s.append(")->");
                s.append(self.friendly_inner(*to, fuel - 1).as_str());
                s
            },
            TypeInfo::Ref(next) => self.friendly_inner(*next, fuel - 1),
            TypeInfo::UnknownGeneric { name } => name.clone(),
            TypeInfo::SelfType => String::from_str("Self"),
            TypeInfo::ErrorRecovery => String::from_str("\"unknown due to error\""),
        }
    }

    /// As [`matches_raw`]: the concrete handle that `id` itself (without
    /// following references) maps to under the substitution.
    #[verifier::loop_isolation(false)]
    pub fn matches_parameter_direct(&self, id: TypeId, mapping: &Vec<(TypeParameter, TypeId)>) -> (
        r: Option<TypeId>)
        ensures
            r == matches_raw(self.types(), id, mapping@),
    {
        if id.0 >= self.slots.len() {
            return None;
        }
        match &self.slots[id.0] {
            TypeInfo::UnknownGeneric { name } => {
                assert(mapping@.skip(0int) =~= mapping@);
                let mut i: usize = 0;
                while i < mapping.len()
                    invariant
                        i <= mapping.len(),
                        param_match(mapping@, name@) == param_match(mapping@.skip(i as int), name@),
                    decreases mapping.len() - i,
                {
                    if mapping[i].0.name.name.eq(name) {
                        assert(mapping@.skip(i as int)[0] == mapping@[i as int]);
                        return Some(mapping[i].1);
                    }
                    assert(mapping@.skip(i as int).drop_first() =~= mapping@.skip(i as int + 1));
                    i = i + 1;
                }
                assert(mapping@.skip(i as int).len() == 0);
                None
            },
            _ => None,
        }
    }
}

/// How one embedded handle of a typed tree is rewritten under a
/// substitution: a handle whose own entry is a covered generic-parameter
/// placeholder becomes a fresh handle referencing the parameter's concrete
/// argument; every other handle is left untouched.
pub open spec fn id_rewrite_ok(
    old_id: TypeId,
    new_id: TypeId,
    mapping: Seq<(TypeParameter, TypeId)>,
    ts0: Seq<TypeInfo>,
    ts1: Seq<TypeInfo>,
) -> bool {
    match matches_raw(ts0, old_id, mapping) {
        Some(t) => new_id.0 >= ts0.len() && new_id.0 < ts1.len() && ts1[new_id.0 as int]
            == TypeInfo::Ref(t),
        None => new_id == old_id,
    }
}

/// The rewrite rule is indifferent to the exact registry frames it is
/// stated against, as long as the earlier lower frame differs from the one
/// used only by appended reference descriptors (which never match), and the
/// later upper frame only extends the one used.
pub proof fn lemma_id_rewrite_frame(
    old_id: TypeId,
    new_id: TypeId,
    mapping: Seq<(TypeParameter, TypeId)>,
    ts0a: Seq<TypeInfo>,
    ts1a: Seq<TypeInfo>,
    ts0b: Seq<TypeInfo>,
    ts1b: Seq<TypeInfo>,
)
    requires
        id_rewrite_ok(old_id, new_id, mapping, ts0a, ts1a),
        extends(ts0a, ts0b),
        forall|k: int| ts0b.len() <= k < ts0a.len() ==> ts0a[k] is Ref,
        extends(ts1b, ts1a),
    ensures
        id_rewrite_ok(old_id, new_id, mapping, ts0b, ts1b),
{
    match matches_raw(ts0a, old_id, mapping) {
        Some(t) => {
            assert(old_id.0 < ts0b.len());
            assert(ts0b[old_id.0 as int] == ts0a[old_id.0 as int]);
        },
        None => {
            if old_id.0 < ts0b.len() {
                assert(ts0b[old_id.0 as int] == ts0a[old_id.0 as int]);
            }
        },
    }
}

impl Engine {
    /// Rewrites one embedded handle of a typed tree under the substitution:
    /// exactly as [`id_rewrite_ok`] states. Only reference descriptors are
    /// ever added.
    pub fn substitute_id(&mut self, id: TypeId, mapping: &Vec<(TypeParameter, TypeId)>) -> (r:
        TypeId)
        ensures
            extends(final(self).types(), old(self).types()),
            forall|k: int|
                old(self).types().len() <= k < final(self).types().len() ==> final(self).types()[k]
                    is Ref,
            id_rewrite_ok(id, r, mapping@, old(self).types(), final(self).types()),
    {
        match self.matches_parameter_direct(id, mapping) {
            Some(t) => self.insert(TypeInfo::Ref(t)),
            None => id,
        }
    }
}

} // verus!
