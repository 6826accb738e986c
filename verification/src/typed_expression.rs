//! Typed expression nodes: the closed sum type over every checked expression
//! form. Each variant carries exactly the operands needed to regenerate or
//! re-typecheck it; a node is owned by its parent and never shared.

use vstd::prelude::*;
use vstd::string::StringExecFns;

use crate::decimal::{dec_seq, u64_to_string, usize_to_string};
use crate::literal::Literal;
use crate::span::{CallPath, Ident, Span};
use crate::storage::StateIndex;
use crate::literal::literal_eq;
use crate::span::{call_path_eq, ident_eq};
use crate::type_engine::{
    extends, friendly_of, id_rewrite_ok, lemma_id_rewrite_frame, struct_field_eq, Engine,
    OwnedTypedStructField, TypeId, TypeInfo, TypeParameter,
};
use crate::typed_enum::{decl_copied, lemma_decl_copied_frame};
use crate::typed_enum::TypedEnumDeclaration;

verus! {

/// A short-circuiting boolean operator.
#[derive(Clone, Copy, Debug, PartialEq, Eq, Structural)]
pub enum LazyOp {
    And,
    Or,
}

/// The metadata a contract call needs at run time: the four-byte function
/// selector and the expression computing the callee's address.
#[derive(Debug)]
pub struct ContractCallMetadata {
    pub func_selector: [u8; 4],
    pub contract_address: Box<TypedExpression>,
}

/// A sequence of typed expressions checked as one block; the block's value
/// is the value of its last expression.
#[derive(Debug)]
pub struct TypedCodeBlock {
    pub contents: Vec<TypedExpression>,
}

/// One register declared by an inline-assembly block, with its optional
/// initializer.
#[derive(Debug)]
pub struct TypedAsmRegisterDeclaration {
    pub initializer: Option<TypedExpression>,
    pub name: Ident,
}

/// A virtual register name inside an inline-assembly block.
#[derive(Clone, Debug)]
pub struct AsmRegister {
    pub name: String,
}

/// One instruction of an inline-assembly block: an opcode, its register
/// arguments, and an optional immediate operand.
#[derive(Clone, Debug)]
pub struct AsmOp {
    pub op_name: Ident,
    pub op_args: Vec<Ident>,
    pub span: Span,
    pub immediate: Option<Ident>,
}

/// Whether a storage access writes (stores) or reads (loads).
#[derive(Clone, Copy, Debug, PartialEq, Eq, Structural)]
pub enum StoreOrLoad {
    Store,
    Load,
}

/// A checked access to declared storage: which field (by stable state index
/// and name), and in which direction. An access with no field is the
/// synthetic whole-storage access used for aggregate operations; it carries
/// no observable effect.
#[derive(Clone, Debug)]
pub struct TypeCheckedStorageAccess {
    pub field_ix_and_name: Option<(StateIndex, Ident)>,
    pub store_or_load: StoreOrLoad,
}

impl TypeCheckedStorageAccess {
    pub fn mode(&self) -> (m: StoreOrLoad)
        ensures
            m == self.store_or_load,
    {
        self.store_or_load
    }

    pub fn field_ix(&self) -> (r: Option<&StateIndex>)
        ensures
            self.field_ix_and_name is Some ==> (r matches Some(ix) && *ix == (
            self.field_ix_and_name->0).0),
            self.field_ix_and_name is None ==> r is None,
    {
        match &self.field_ix_and_name {
            Some((ix, _)) => Some(ix),
            None => None,
        }
    }

    pub fn field_name(&self) -> (r: Option<&Ident>)
        ensures
            self.field_ix_and_name is Some ==> (r matches Some(name) && *name == (
            self.field_ix_and_name->0).1),
            self.field_ix_and_name is None ==> r is None,
    {
        match &self.field_ix_and_name {
            Some((_, name)) => Some(name),
            None => None,
        }
    }

    pub fn new_store(field: StateIndex, name: Ident) -> (r: Self)
        ensures
            r.field_ix_and_name == Some((field, name)),
            r.store_or_load == StoreOrLoad::Store,
    {
        Self { field_ix_and_name: Some((field, name)), store_or_load: StoreOrLoad::Store }
    }

    pub fn new_load(field: StateIndex, name: Ident) -> (r: Self)
        ensures
            r.field_ix_and_name == Some((field, name)),
            r.store_or_load == StoreOrLoad::Load,
    {
        Self { field_ix_and_name: Some((field, name)), store_or_load: StoreOrLoad::Load }
    }

    /// The whole-storage access does nothing by itself, so it is tagged as a
    /// load, the direction implying less overhead.
    pub fn unit_access() -> (r: Self)
        ensures
            r.field_ix_and_name is None,
            r.store_or_load == StoreOrLoad::Load,
    {
        Self { field_ix_and_name: None, store_or_load: StoreOrLoad::Load }
    }
}

/// The operand of a size-of computation: a type directly, or the type of a
/// value.
#[derive(Debug)]
pub enum SizeOfVariant {
    Type(TypeId),
    Val(Box<TypedExpression>),
}

/// A field of a struct-construction expression, already checked.
#[derive(Debug)]
pub struct TypedStructExpressionField {
    pub name: Ident,
    pub value: TypedExpression,
}

/// Every checked expression form.
#[derive(Debug)]
pub enum TypedExpressionVariant {
    Literal(Literal),
    FunctionApplication {
        name: CallPath,
        arguments: Vec<(Ident, TypedExpression)>,
        function_body: TypedCodeBlock,
        /// Present exactly when this application is a contract call.
        selector: Option<ContractCallMetadata>,
    },
    LazyOperator { op: LazyOp, lhs: Box<TypedExpression>, rhs: Box<TypedExpression> },
    VariableExpression { name: Ident },
    Tuple { fields: Vec<TypedExpression> },
    Array { contents: Vec<TypedExpression> },
    ArrayIndex { prefix: Box<TypedExpression>, index: Box<TypedExpression> },
    StructExpression { struct_name: Ident, fields: Vec<TypedStructExpressionField> },
    CodeBlock(TypedCodeBlock),
    /// A value to be supplied as a parameter later, currently unknown.
    FunctionParameter,
    IfExp {
        condition: Box<TypedExpression>,
        then_branch: Box<TypedExpression>,
        else_branch: Option<Box<TypedExpression>>,
    },
    AsmExpression {
        registers: Vec<TypedAsmRegisterDeclaration>,
        body: Vec<AsmOp>,
        implicit_return: Option<(AsmRegister, Span)>,
        whole_block_span: Span,
    },
    StructFieldAccess {
        prefix: Box<TypedExpression>,
        field_to_access: OwnedTypedStructField,
        resolved_type_of_parent: TypeId,
        field_to_access_span: Span,
    },
    EnumArgAccess {
        prefix: Box<TypedExpression>,
        arg_num_to_access: usize,
        resolved_type_of_parent: TypeId,
    },
    TupleElemAccess {
        prefix: Box<TypedExpression>,
        elem_to_access_num: usize,
        resolved_type_of_parent: TypeId,
        elem_to_access_span: Span,
    },
    EnumInstantiation {
        /// The (already substituted) declaration, kept for printing.
        enum_decl: TypedEnumDeclaration,
        variant_name: Ident,
        tag: usize,
        contents: Option<Box<TypedExpression>>,
    },
    AbiCast { abi_name: CallPath, address: Box<TypedExpression>, span: Span },
    StorageAccess(TypeCheckedStorageAccess),
    SizeOf { variant: SizeOfVariant },
}

/// A checked expression: its form, the handle of its type, whether it is a
/// compile-time constant, and where it came from.
#[derive(Debug)]
pub struct TypedExpression {
    pub expression: TypedExpressionVariant,
    pub return_type: TypeId,
    pub is_constant: bool,
    pub span: Span,
}

/// A typed while loop: a condition expression and the block it guards.
#[derive(Debug)]
pub struct TypedWhileLoop {
    pub condition: TypedExpression,
    pub body: TypedCodeBlock,
}

/// The text a literal prints as.
pub open spec fn lit_str(l: Literal) -> Seq<char> {
    match l {
        Literal::U8(x) => dec_seq(x as nat),
        Literal::U16(x) => dec_seq(x as nat),
        Literal::U32(x) => dec_seq(x as nat),
        Literal::U64(x) => dec_seq(x as nat),
        Literal::Numeric(x) => dec_seq(x as nat),
        Literal::String(s) => s@,
        Literal::Boolean(b) => if b {
            "true"@
        } else {
            "false"@
        },
        Literal::Byte(x) => dec_seq(x as nat),
        Literal::B256(bytes) => b256_join(bytes@),
    }
}

/// Bytes written in decimal, joined by a comma and a space.
pub open spec fn b256_join(s: Seq<u8>) -> Seq<char>
    decreases s,
{
    if s.len() == 0 {
        Seq::empty()
    } else if s.len() == 1 {
        dec_seq(s[0] as nat)
    } else {
        dec_seq(s[0] as nat) + ", "@ + b256_join(s.drop_first())
    }
}

proof fn lemma_b256_join_push(t: Seq<u8>, x: u8)
    ensures
        b256_join(t.push(x)) == if t.len() == 0 {
            dec_seq(x as nat)
        } else {
            b256_join(t) + ", "@ + dec_seq(x as nat)
        },
    decreases t.len(),
{
    let p = t.push(x);
    if t.len() == 0 {
        assert(p.len() == 1);
        assert(p[0] == x);
    } else {
        assert(p[0] == t[0]);
        assert(p.drop_first() =~= t.drop_first().push(x));
        lemma_b256_join_push(t.drop_first(), x);
        if t.len() == 1 {
            assert(b256_join(t) == dec_seq(t[0] as nat));
        }
    }
}

/// What each checked expression form prints as: a short label carrying the
/// operands a reader needs, resolving type handles read-only through the
/// registry view `ts`.
pub open spec fn pretty_spec(v: TypedExpressionVariant, ts: Seq<TypeInfo>) -> Seq<char>
    decreases v,
{
    match v {
        TypedExpressionVariant::Literal(lit) => "literal "@ + lit_str(lit),
        TypedExpressionVariant::FunctionApplication { name, .. } => "\""@ + name.suffix.name@
            + "\" fn entry"@,
        TypedExpressionVariant::LazyOperator { op, .. } => match op {
            LazyOp::And => "&&"@,
            LazyOp::Or => "||"@,
        },
        TypedExpressionVariant::Tuple { fields } => "tuple("@ + tuple_join(fields@, ts) + ")"@,
        TypedExpressionVariant::Array { .. } => "array"@,
        TypedExpressionVariant::ArrayIndex { .. } => "[..]"@,
        TypedExpressionVariant::StructExpression { struct_name, .. } => "\""@ + struct_name.name@
            + "\" struct init"@,
        TypedExpressionVariant::CodeBlock(_) => "code block entry"@,
        TypedExpressionVariant::FunctionParameter => "fn param access"@,
        TypedExpressionVariant::IfExp { .. } => "if exp"@,
        TypedExpressionVariant::AsmExpression { .. } => "inline asm"@,
        TypedExpressionVariant::AbiCast { abi_name, .. } => "abi cast "@ + abi_name.suffix.name@,
        TypedExpressionVariant::StructFieldAccess {
            resolved_type_of_parent,
            field_to_access,
            ..
        } => "\""@ + friendly_of(ts, resolved_type_of_parent) + "."@ + field_to_access.name@
            + "\" struct field access"@,
        TypedExpressionVariant::EnumArgAccess { resolved_type_of_parent, arg_num_to_access, .. } =>
            "\""@ + friendly_of(ts, resolved_type_of_parent) + "."@ + dec_seq(
            arg_num_to_access as nat,
        ) + "\" arg num access"@,
        TypedExpressionVariant::TupleElemAccess {
            resolved_type_of_parent,
            elem_to_access_num,
            ..
        } => "\""@ + friendly_of(ts, resolved_type_of_parent) + "."@ + dec_seq(
            elem_to_access_num as nat,
        ) + "\" tuple index"@,
        TypedExpressionVariant::VariableExpression { name } => "\""@ + name.name@
            + "\" variable exp"@,
        TypedExpressionVariant::EnumInstantiation { enum_decl, variant_name, tag, .. } =>
            enum_decl.name.name@ + "::"@ + variant_name.name@ + " enum instantiation (tag: "@
            + dec_seq(tag as nat) + ")"@,
        TypedExpressionVariant::StorageAccess(access) => match access.field_ix_and_name {
            Some((_, name)) => "storage field "@ + name.name@ + " access"@,
            None => "storage struct access"@,
        },
        TypedExpressionVariant::SizeOf { variant } => match variant {
            SizeOfVariant::Val(exp) => "size_of_val("@ + pretty_spec(exp.expression, ts) + ")"@,
            SizeOfVariant::Type(t) => "size_of("@ + friendly_of(ts, t) + ")"@,
        },
    }
}

/// Printed tuple fields, joined by a comma and a space.
pub open spec fn tuple_join(s: Seq<TypedExpression>, ts: Seq<TypeInfo>) -> Seq<char>
    decreases s,
{
    if s.len() == 0 {
        Seq::empty()
    } else if s.len() == 1 {
        pretty_spec(s[0].expression, ts)
    } else {
        pretty_spec(s[0].expression, ts) + ", "@ + tuple_join(s.drop_first(), ts)
    }
}

proof fn lemma_tuple_join_push(t: Seq<TypedExpression>, x: TypedExpression, ts: Seq<TypeInfo>)
    ensures
        tuple_join(t.push(x), ts) == if t.len() == 0 {
            pretty_spec(x.expression, ts)
        } else {
            tuple_join(t, ts) + ", "@ + pretty_spec(x.expression, ts)
        },
    decreases t.len(),
{
    let p = t.push(x);
    if t.len() == 0 {
        assert(p.len() == 1);
        assert(p[0] == x);
    } else {
        assert(p[0] == t[0]);
        assert(p.drop_first() =~= t.drop_first().push(x));
        lemma_tuple_join_push(t.drop_first(), x, ts);
        if t.len() == 1 {
            assert(tuple_join(t, ts) == pretty_spec(t[0].expression, ts));
        }
    }
}

fn literal_to_string(lit: &Literal) -> (s: String)
    ensures
        s@ == lit_str(*lit),
{
    match lit {
        Literal::U8(x) => u64_to_string(*x as u64),
        Literal::U16(x) => u64_to_string(*x as u64),
        Literal::U32(x) => u64_to_string(*x as u64),
        Literal::U64(x) => u64_to_string(*x),
        Literal::Numeric(x) => u64_to_string(*x),
        Literal::String(content) => content.clone(),
        Literal::Boolean(b) => {
            if *b {
                String::from_str("true")
            } else {
                String::from_str("false")
            }
        },
        Literal::Byte(x) => u64_to_string(*x as u64),
        Literal::B256(bytes) => {
            let ghost all = bytes@;
            let mut buf = String::new();
            let mut i: usize = 0;
            while i < 32
                invariant
                    i <= 32,
                    all.len() == 32,
                    all == bytes@,
                    buf@ == b256_join(all.take(i as int)),
                decreases 32 - i,
            {
                if i > 0 {
                    buf.append(", ");
                }
                buf.append(u64_to_string(bytes[i] as u64).as_str());
                proof {
                    lemma_b256_join_push(all.take(i as int), all[i as int]);
                    assert(all.take(i as int).push(all[i as int]) =~= all.take(i as int + 1));
                }
                i = i + 1;
            }
            proof {
                assert(all.take(32int) =~= all);
            }
            buf
        },
    }
}

impl TypedExpressionVariant {
    /// A short human-readable label for this expression form, for
    /// diagnostics and debugging. Total over the variant set; consults the
    /// registry only to resolve names of types, read-only.
    #[verifier::loop_isolation(false)]
    pub fn pretty_print(&self, engine: &Engine) -> (s: String)
        ensures
            s@ == pretty_spec(*self, engine.types()),
        decreases *self,
    {
        match self {
            TypedExpressionVariant::Literal(lit) => {
                let mut s = String::from_str("literal ");
                s.append(literal_to_string(lit).as_str());
                s
            },
            TypedExpressionVariant::FunctionApplication { name, .. } => {
                let mut s = String::from_str("\"");
                s.append(name.suffix.name.as_str());
                s.append("\" fn entry");
                s
            },
            TypedExpressionVariant::LazyOperator { op, .. } => match op {
                LazyOp::And => String::from_str("&&"),
                LazyOp::Or => String::from_str("||"),
            },
            TypedExpressionVariant::Tuple { fields } => {
                let ghost all = fields@;
                let mut buf = String::from_str("tuple(");
                let mut i: usize = 0;
                while i < fields.len()
                    invariant
                        i <= fields.len(),
                        buf@ == "tuple("@ + tuple_join(all.take(i as int), engine.types()),
                    decreases fields.len() - i,
                {
                    if i > 0 {
                        buf.append(", ");
                    }
                    buf.append(fields[i].expression.pretty_print(engine).as_str());
                    proof {
                        lemma_tuple_join_push(all.take(i as int), all[i as int], engine.types());
                        assert(all.take(i as int).push(all[i as int]) =~= all.take(i as int + 1));
                    }
                    i = i + 1;
                }
                buf.append(")");
                proof {
                    assert(all.take(all.len() as int) =~= all);
                }
                buf
            },
            TypedExpressionVariant::Array { .. } => String::from_str("array"),
            TypedExpressionVariant::ArrayIndex { .. } => String::from_str("[..]"),
            TypedExpressionVariant::StructExpression { struct_name, .. } => {
                let mut s = String::from_str("\"");
                s.append(struct_name.name.as_str());
                s.append("\" struct init");
                s
            },
            TypedExpressionVariant::CodeBlock(_) => String::from_str("code block entry"),
            TypedExpressionVariant::FunctionParameter => String::from_str("fn param access"),
            TypedExpressionVariant::IfExp { .. } => String::from_str("if exp"),
            TypedExpressionVariant::AsmExpression { .. } => String::from_str("inline asm"),
            TypedExpressionVariant::AbiCast { abi_name, .. } => {
                let mut s = String::from_str("abi cast ");
                s.append(abi_name.suffix.name.as_str());
                s
            },
            TypedExpressionVariant::StructFieldAccess {
                resolved_type_of_parent,
                field_to_access,
                ..
            } => {
                let mut s = String::from_str("\"");
                s.append(engine.friendly_type_str_of(*resolved_type_of_parent).as_str());
                s.append(".");
                s.append(field_to_access.name.as_str());
                s.append("\" struct field access");
                s
            },
            TypedExpressionVariant::EnumArgAccess {
                resolved_type_of_parent,
                arg_num_to_access,
                ..
            } => {
                let mut s = String::from_str("\"");
                s.append(engine.friendly_type_str_of(*resolved_type_of_parent).as_str());
                s.append(".");
                s.append(usize_to_string(*arg_num_to_access).as_str());
                s.append("\" arg num access");
                s
            },
            TypedExpressionVariant::TupleElemAccess {
                resolved_type_of_parent,
                elem_to_access_num,
                ..
            } => {
                let mut s = String::from_str("\"");
                s.append(engine.friendly_type_str_of(*resolved_type_of_parent).as_str());
                s.append(".");
                s.append(usize_to_string(*elem_to_access_num).as_str());
                s.append("\" tuple index");
                s
            },
            TypedExpressionVariant::VariableExpression { name } => {
                let mut s = String::from_str("\"");
                s.append(name.name.as_str());
                s.append("\" variable exp");
                s
            },
            TypedExpressionVariant::EnumInstantiation { enum_decl, variant_name, tag, .. } => {
                let mut s = enum_decl.name.name.clone();
                s.append("::");
                s.append(variant_name.name.as_str());
                s.append(" enum instantiation (tag: ");
                s.append(usize_to_string(*tag).as_str());
                s.append(")");
                s
            },
            TypedExpressionVariant::StorageAccess(access) => match &access.field_ix_and_name {
                Some((_, name)) => {
                    let mut s = String::from_str("storage field ");
                    s.append(name.name.as_str());
                    s.append(" access");
                    s
                },
                None => String::from_str("storage struct access"),
            },
            TypedExpressionVariant::SizeOf { variant } => match variant {
                SizeOfVariant::Val(exp) => {
                    let mut s = String::from_str("size_of_val(");
                    s.append(exp.expression.pretty_print(engine).as_str());
                    s.append(")");
                    s
                },
                SizeOfVariant::Type(t) => {
                    let mut s = String::from_str("size_of(");
                    s.append(engine.friendly_type_str_of(*t).as_str());
                    s.append(")");
                    s
                },
            },
        }
    }
}

impl TypedExpression {
    /// The label of this expression's form.
    pub fn pretty_print(&self, engine: &Engine) -> (s: String)
        ensures
            s@ == pretty_spec(self.expression, engine.types()),
    {
        self.expression.pretty_print(engine)
    }
}

impl TypedWhileLoop {
    /// The label of a while loop: its condition's label, prefixed.
    pub fn pretty_print(&self, engine: &Engine) -> (s: String)
        ensures
            s@ == "while loop on "@ + pretty_spec(self.condition.expression, engine.types()),
    {
        let mut s = String::from_str("while loop on ");
        s.append(self.condition.pretty_print(engine).as_str());
        s
    }
}

/// Two assembly instructions are the same instruction.
pub open spec fn asm_op_eq(a: AsmOp, b: AsmOp) -> bool {
    &&& ident_eq(a.op_name, b.op_name)
    &&& a.op_args@.len() == b.op_args@.len()
    &&& forall|i: int| 0 <= i < a.op_args@.len() ==> ident_eq(#[trigger] a.op_args@[i], b.op_args@[i])
    &&& a.span == b.span
    &&& match (a.immediate, b.immediate) {
        (Option::None, Option::None) => true,
        (Option::Some(x), Option::Some(y)) => ident_eq(x, y),
        _ => false,
    }
}

/// Two optional implicit-return registers agree.
pub open spec fn implicit_return_eq(a: Option<(AsmRegister, Span)>, b: Option<(AsmRegister, Span)>) -> bool {
    match (a, b) {
        (Option::None, Option::None) => true,
        (Option::Some((r1, s1)), Option::Some((r2, s2))) => r1.name@ == r2.name@ && s1 == s2,
        _ => false,
    }
}

/// Two checked storage accesses agree.
pub open spec fn access_eq(a: TypeCheckedStorageAccess, b: TypeCheckedStorageAccess) -> bool {
    &&& a.store_or_load == b.store_or_load
    &&& match (a.field_ix_and_name, b.field_ix_and_name) {
        (Option::None, Option::None) => true,
        (Option::Some((ix1, n1)), Option::Some((ix2, n2))) => ix1 == ix2 && ident_eq(n1, n2),
        _ => false,
    }
}

/// How a copied expression relates to its original, between the registry as
/// it was when copying began (`ts0`) and as it ended (`ts1`): the same form
/// with the same operands, every embedded type handle rewritten by
/// [`id_rewrite_ok`].
pub open spec fn expr_copied(
    o: TypedExpression,
    n: TypedExpression,
    m: Seq<(TypeParameter, TypeId)>,
    ts0: Seq<TypeInfo>,
    ts1: Seq<TypeInfo>,
) -> bool
    decreases o,
{
    &&& id_rewrite_ok(o.return_type, n.return_type, m, ts0, ts1)
    &&& n.is_constant == o.is_constant
    &&& n.span == o.span
    &&& variant_copied(o.expression, n.expression, m, ts0, ts1)
}

pub open spec fn opt_box_copied(
    o: Option<Box<TypedExpression>>,
    n: Option<Box<TypedExpression>>,
    m: Seq<(TypeParameter, TypeId)>,
    ts0: Seq<TypeInfo>,
    ts1: Seq<TypeInfo>,
) -> bool
    decreases o,
{
    match (o, n) {
        (Option::None, Option::None) => true,
        (Option::Some(ob), Option::Some(nb)) => expr_copied(*ob, *nb, m, ts0, ts1),
        _ => false,
    }
}

pub open spec fn opt_expr_copied(
    o: Option<TypedExpression>,
    n: Option<TypedExpression>,
    m: Seq<(TypeParameter, TypeId)>,
    ts0: Seq<TypeInfo>,
    ts1: Seq<TypeInfo>,
) -> bool
    decreases o,
{
    match (o, n) {
        (Option::None, Option::None) => true,
        (Option::Some(oe), Option::Some(ne)) => expr_copied(oe, ne, m, ts0, ts1),
        _ => false,
    }
}

pub open spec fn block_copied(
    o: TypedCodeBlock,
    n: TypedCodeBlock,
    m: Seq<(TypeParameter, TypeId)>,
    ts0: Seq<TypeInfo>,
    ts1: Seq<TypeInfo>,
) -> bool
    decreases o,
{
    &&& n.contents@.len() == o.contents@.len()
    &&& forall|i: int|
        0 <= i < o.contents@.len() ==> expr_copied(
            #[trigger] o.contents@[i],
            n.contents@[i],
            m,
            ts0,
            ts1,
        )
}

pub open spec fn meta_copied(
    o: Option<ContractCallMetadata>,
    n: Option<ContractCallMetadata>,
    m: Seq<(TypeParameter, TypeId)>,
    ts0: Seq<TypeInfo>,
    ts1: Seq<TypeInfo>,
) -> bool
    decreases o,
{
    match (o, n) {
        (Option::None, Option::None) => true,
        (Option::Some(om), Option::Some(nm)) => om.func_selector@ == nm.func_selector@
            && expr_copied(*om.contract_address, *nm.contract_address, m, ts0, ts1),
        _ => false,
    }
}

pub open spec fn reg_copied(
    o: TypedAsmRegisterDeclaration,
    n: TypedAsmRegisterDeclaration,
    m: Seq<(TypeParameter, TypeId)>,
    ts0: Seq<TypeInfo>,
    ts1: Seq<TypeInfo>,
) -> bool
    decreases o,
{
    ident_eq(n.name, o.name) && opt_expr_copied(o.initializer, n.initializer, m, ts0, ts1)
}

/// The variant-level copy relation; this match is exhaustive over the
/// variant set, and a variant added later must extend it and the traversal
/// alike, or monomorphization would silently produce wrong types.
pub open spec fn variant_copied(
    o: TypedExpressionVariant,
    n: TypedExpressionVariant,
    m: Seq<(TypeParameter, TypeId)>,
    ts0: Seq<TypeInfo>,
    ts1: Seq<TypeInfo>,
) -> bool
    decreases o,
{
    match o {
        TypedExpressionVariant::Literal(lit) => n matches TypedExpressionVariant::Literal(nl)
            && literal_eq(nl, lit),
        TypedExpressionVariant::FunctionApplication {
            name,
            arguments,
            function_body,
            selector,
        } => n matches TypedExpressionVariant::FunctionApplication {
            name: n_name,
            arguments: n_args,
            function_body: n_body,
            selector: n_sel,
        } && call_path_eq(n_name, name) && n_args@.len() == arguments@.len() && (forall|i: int|
            0 <= i < arguments@.len() ==> ident_eq((#[trigger] n_args@[i]).0, arguments@[i].0)
                && expr_copied(arguments@[i].1, n_args@[i].1, m, ts0, ts1)) && block_copied(
            function_body,
            n_body,
            m,
            ts0,
            ts1,
        ) && meta_copied(selector, n_sel, m, ts0, ts1),
        TypedExpressionVariant::LazyOperator { op, lhs, rhs } => n matches
            TypedExpressionVariant::LazyOperator { op: n_op, lhs: n_lhs, rhs: n_rhs } && n_op == op
            && expr_copied(*lhs, *n_lhs, m, ts0, ts1) && expr_copied(*rhs, *n_rhs, m, ts0, ts1),
        TypedExpressionVariant::VariableExpression { name } => n matches
            TypedExpressionVariant::VariableExpression { name: n_name } && ident_eq(n_name, name),
        TypedExpressionVariant::Tuple { fields } => n matches TypedExpressionVariant::Tuple {
            fields: n_fields,
        } && n_fields@.len() == fields@.len() && (forall|i: int|
            0 <= i < fields@.len() ==> expr_copied(
                #[trigger] fields@[i],
                n_fields@[i],
                m,
                ts0,
                ts1,
            )),
        TypedExpressionVariant::Array { contents } => n matches TypedExpressionVariant::Array {
            contents: n_contents,
        } && n_contents@.len() == contents@.len() && (forall|i: int|
            0 <= i < contents@.len() ==> expr_copied(
                #[trigger] contents@[i],
                n_contents@[i],
                m,
                ts0,
                ts1,
            )),
        TypedExpressionVariant::ArrayIndex { prefix, index } => n matches
            TypedExpressionVariant::ArrayIndex { prefix: n_prefix, index: n_index } && expr_copied(
            *prefix,
            *n_prefix,
            m,
            ts0,
            ts1,
        ) && expr_copied(*index, *n_index, m, ts0, ts1),
        TypedExpressionVariant::StructExpression { struct_name, fields } => n matches
            TypedExpressionVariant::StructExpression {
            struct_name: n_sn,
            fields: n_fields,
        } && ident_eq(n_sn, struct_name) && n_fields@.len() == fields@.len() && (forall|i: int|
            0 <= i < fields@.len() ==> ident_eq((#[trigger] n_fields@[i]).name, fields@[i].name)
                && expr_copied(fields@[i].value, n_fields@[i].value, m, ts0, ts1)),
        TypedExpressionVariant::CodeBlock(block) => n matches TypedExpressionVariant::CodeBlock(
            n_block,
        ) && block_copied(block, n_block, m, ts0, ts1),
        TypedExpressionVariant::FunctionParameter => n is FunctionParameter,
        TypedExpressionVariant::IfExp { condition, then_branch, else_branch } => n matches
            TypedExpressionVariant::IfExp {
            condition: n_cond,
            then_branch: n_then,
            else_branch: n_else,
        } && expr_copied(*condition, *n_cond, m, ts0, ts1) && expr_copied(
            *then_branch,
            *n_then,
            m,
            ts0,
            ts1,
        ) && opt_box_copied(else_branch, n_else, m, ts0, ts1),
        TypedExpressionVariant::AsmExpression { registers, body, implicit_return, whole_block_span } => n
            matches TypedExpressionVariant::AsmExpression {
            registers: n_regs,
            body: n_body,
            implicit_return: n_ret,
            whole_block_span: n_span,
        } && n_regs@.len() == registers@.len() && (forall|i: int|
            0 <= i < registers@.len() ==> reg_copied(
                #[trigger] registers@[i],
                n_regs@[i],
                m,
                ts0,
                ts1,
            )) && n_body@.len() == body@.len() && (forall|i: int|
            0 <= i < body@.len() ==> asm_op_eq(#[trigger] n_body@[i], body@[i]))
            && implicit_return_eq(n_ret, implicit_return) && n_span == whole_block_span,
        TypedExpressionVariant::StructFieldAccess {
            prefix,
            field_to_access,
            resolved_type_of_parent,
            field_to_access_span,
        } => n matches TypedExpressionVariant::StructFieldAccess {
            prefix: n_prefix,
            field_to_access: n_field,
            resolved_type_of_parent: n_parent,
            field_to_access_span: n_span,
        } && expr_copied(*prefix, *n_prefix, m, ts0, ts1) && n_field.name@ == field_to_access.name@
            && id_rewrite_ok(field_to_access.type_id, n_field.type_id, m, ts0, ts1)
            && id_rewrite_ok(resolved_type_of_parent, n_parent, m, ts0, ts1) && n_span
            == field_to_access_span,
        TypedExpressionVariant::EnumArgAccess {
            prefix,
            arg_num_to_access,
            resolved_type_of_parent,
        } => n matches TypedExpressionVariant::EnumArgAccess {
            prefix: n_prefix,
            arg_num_to_access: n_num,
            resolved_type_of_parent: n_parent,
        } && expr_copied(*prefix, *n_prefix, m, ts0, ts1) && n_num == arg_num_to_access
            && id_rewrite_ok(resolved_type_of_parent, n_parent, m, ts0, ts1),
        TypedExpressionVariant::TupleElemAccess {
            prefix,
            elem_to_access_num,
            resolved_type_of_parent,
            elem_to_access_span,
        } => n matches TypedExpressionVariant::TupleElemAccess {
            prefix: n_prefix,
            elem_to_access_num: n_num,
            resolved_type_of_parent: n_parent,
            elem_to_access_span: n_span,
        } && expr_copied(*prefix, *n_prefix, m, ts0, ts1) && n_num == elem_to_access_num
            && id_rewrite_ok(resolved_type_of_parent, n_parent, m, ts0, ts1) && n_span
            == elem_to_access_span,
        TypedExpressionVariant::EnumInstantiation { enum_decl, variant_name, tag, contents } => n
            matches TypedExpressionVariant::EnumInstantiation {
            enum_decl: n_decl,
            variant_name: n_vn,
            tag: n_tag,
            contents: n_contents,
        } && decl_copied(enum_decl, n_decl, m, ts0, ts1) && ident_eq(n_vn, variant_name) && n_tag
            == tag && opt_box_copied(contents, n_contents, m, ts0, ts1),
        TypedExpressionVariant::AbiCast { abi_name, address, span } => n matches
            TypedExpressionVariant::AbiCast { abi_name: n_abi, address: n_addr, span: n_span }
            && call_path_eq(n_abi, abi_name) && expr_copied(*address, *n_addr, m, ts0, ts1)
            && n_span == span,
        TypedExpressionVariant::StorageAccess(access) => n matches
            TypedExpressionVariant::StorageAccess(n_access) && access_eq(n_access, access),
        TypedExpressionVariant::SizeOf { variant } => n matches TypedExpressionVariant::SizeOf {
            variant: n_variant,
        } && match (variant, n_variant) {
            (SizeOfVariant::Type(t), SizeOfVariant::Type(n_t)) => n_t == t,
            (SizeOfVariant::Val(e), SizeOfVariant::Val(n_e)) => expr_copied(*e, *n_e, m, ts0, ts1),
            _ => false,
        },
    }
}

/// The frame conditions under which the copy relation can be restated:
/// the lower frame may shrink back past appended reference descriptors
/// (which never match a parameter), and the upper frame may grow.
pub open spec fn frame_move(
    ts0a: Seq<TypeInfo>,
    ts1a: Seq<TypeInfo>,
    ts0b: Seq<TypeInfo>,
    ts1b: Seq<TypeInfo>,
) -> bool {
    &&& extends(ts0a, ts0b)
    &&& forall|k: int| ts0b.len() <= k < ts0a.len() ==> ts0a[k] is Ref
    &&& extends(ts1b, ts1a)
}

pub proof fn lemma_expr_copied_frame(
    o: TypedExpression,
    n: TypedExpression,
    m: Seq<(TypeParameter, TypeId)>,
    ts0a: Seq<TypeInfo>,
    ts1a: Seq<TypeInfo>,
    ts0b: Seq<TypeInfo>,
    ts1b: Seq<TypeInfo>,
)
    requires
        expr_copied(o, n, m, ts0a, ts1a),
        frame_move(ts0a, ts1a, ts0b, ts1b),
    ensures
        expr_copied(o, n, m, ts0b, ts1b),
    decreases o,
{
    lemma_id_rewrite_frame(o.return_type, n.return_type, m, ts0a, ts1a, ts0b, ts1b);
    lemma_variant_copied_frame(o.expression, n.expression, m, ts0a, ts1a, ts0b, ts1b);
}

pub proof fn lemma_block_copied_frame(
    o: TypedCodeBlock,
    n: TypedCodeBlock,
    m: Seq<(TypeParameter, TypeId)>,
    ts0a: Seq<TypeInfo>,
    ts1a: Seq<TypeInfo>,
    ts0b: Seq<TypeInfo>,
    ts1b: Seq<TypeInfo>,
)
    requires
        block_copied(o, n, m, ts0a, ts1a),
        frame_move(ts0a, ts1a, ts0b, ts1b),
    ensures
        block_copied(o, n, m, ts0b, ts1b),
    decreases o,
{
    assert forall|i: int| 0 <= i < o.contents@.len() implies expr_copied(
        #[trigger] o.contents@[i],
        n.contents@[i],
        m,
        ts0b,
        ts1b,
    ) by {
        lemma_expr_copied_frame(o.contents@[i], n.contents@[i], m, ts0a, ts1a, ts0b, ts1b);
    }
}

pub proof fn lemma_variant_copied_frame(
    o: TypedExpressionVariant,
    n: TypedExpressionVariant,
    m: Seq<(TypeParameter, TypeId)>,
    ts0a: Seq<TypeInfo>,
    ts1a: Seq<TypeInfo>,
    ts0b: Seq<TypeInfo>,
    ts1b: Seq<TypeInfo>,
)
    requires
        variant_copied(o, n, m, ts0a, ts1a),
        frame_move(ts0a, ts1a, ts0b, ts1b),
    ensures
        variant_copied(o, n, m, ts0b, ts1b),
    decreases o,
{
    match o {
        TypedExpressionVariant::Literal(..) => {},
        TypedExpressionVariant::FunctionApplication { name, arguments, function_body, selector } => {
            let n_args = n->FunctionApplication_arguments;
            assert forall|i: int| 0 <= i < arguments@.len() implies ident_eq(
                (#[trigger] n_args@[i]).0,
                arguments@[i].0,
            ) && expr_copied(arguments@[i].1, n_args@[i].1, m, ts0b, ts1b) by {
                lemma_expr_copied_frame(arguments@[i].1, n_args@[i].1, m, ts0a, ts1a, ts0b, ts1b);
            }
            lemma_block_copied_frame(
                function_body,
                n->FunctionApplication_function_body,
                m,
                ts0a,
                ts1a,
                ts0b,
                ts1b,
            );
            match (selector, n->FunctionApplication_selector) {
                (Option::Some(om), Option::Some(nm)) => {
                    lemma_expr_copied_frame(
                        *om.contract_address,
                        *nm.contract_address,
                        m,
                        ts0a,
                        ts1a,
                        ts0b,
                        ts1b,
                    );
                },
                _ => {},
            }
        },
        TypedExpressionVariant::LazyOperator { op, lhs, rhs } => {
            lemma_expr_copied_frame(*lhs, *(n->LazyOperator_lhs), m, ts0a, ts1a, ts0b, ts1b);
            lemma_expr_copied_frame(*rhs, *(n->LazyOperator_rhs), m, ts0a, ts1a, ts0b, ts1b);
        },
        TypedExpressionVariant::VariableExpression { .. } => {},
        TypedExpressionVariant::Tuple { fields } => {
            let n_fields = n->Tuple_fields;
            assert forall|i: int| 0 <= i < fields@.len() implies expr_copied(
                #[trigger] fields@[i],
                n_fields@[i],
                m,
                ts0b,
                ts1b,
            ) by {
                lemma_expr_copied_frame(fields@[i], n_fields@[i], m, ts0a, ts1a, ts0b, ts1b);
            }
        },
        TypedExpressionVariant::Array { contents } => {
            let n_contents = n->Array_contents;
            assert forall|i: int| 0 <= i < contents@.len() implies expr_copied(
                #[trigger] contents@[i],
                n_contents@[i],
                m,
                ts0b,
                ts1b,
            ) by {
                lemma_expr_copied_frame(contents@[i], n_contents@[i], m, ts0a, ts1a, ts0b, ts1b);
            }
        },
        TypedExpressionVariant::ArrayIndex { prefix, index } => {
            lemma_expr_copied_frame(*prefix, *(n->ArrayIndex_prefix), m, ts0a, ts1a, ts0b, ts1b);
            lemma_expr_copied_frame(*index, *(n->ArrayIndex_index), m, ts0a, ts1a, ts0b, ts1b);
        },
        TypedExpressionVariant::StructExpression { struct_name, fields } => {
            let n_fields = n->StructExpression_fields;
            assert forall|i: int| 0 <= i < fields@.len() implies ident_eq(
                (#[trigger] n_fields@[i]).name,
                fields@[i].name,
            ) && expr_copied(fields@[i].value, n_fields@[i].value, m, ts0b, ts1b) by {
                lemma_expr_copied_frame(
                    fields@[i].value,
                    n_fields@[i].value,
                    m,
                    ts0a,
                    ts1a,
                    ts0b,
                    ts1b,
                );
            }
        },
        TypedExpressionVariant::CodeBlock(block) => {
            lemma_block_copied_frame(block, n->CodeBlock_0, m, ts0a, ts1a, ts0b, ts1b);
        },
        TypedExpressionVariant::FunctionParameter => {},
        TypedExpressionVariant::IfExp { condition, then_branch, else_branch } => {
            lemma_expr_copied_frame(*condition, *(n->IfExp_condition), m, ts0a, ts1a, ts0b, ts1b);
            lemma_expr_copied_frame(
                *then_branch,
                *(n->IfExp_then_branch),
                m,
                ts0a,
                ts1a,
                ts0b,
                ts1b,
            );
            match (else_branch, n->IfExp_else_branch) {
                (Option::Some(ob), Option::Some(nb)) => {
                    lemma_expr_copied_frame(*ob, *nb, m, ts0a, ts1a, ts0b, ts1b);
                },
                _ => {},
            }
        },
        TypedExpressionVariant::AsmExpression { registers, .. } => {
            let n_regs = n->AsmExpression_registers;
            assert forall|i: int| 0 <= i < registers@.len() implies reg_copied(
                #[trigger] registers@[i],
                n_regs@[i],
                m,
                ts0b,
                ts1b,
            ) by {
                assert(reg_copied(registers@[i], n_regs@[i], m, ts0a, ts1a));
                match (registers@[i].initializer, n_regs@[i].initializer) {
                    (Option::Some(oe), Option::Some(ne)) => {
                        lemma_expr_copied_frame(oe, ne, m, ts0a, ts1a, ts0b, ts1b);
                    },
                    _ => {},
                }
            }
        },
        TypedExpressionVariant::StructFieldAccess {
            prefix,
            field_to_access,
            resolved_type_of_parent,
            ..
        } => {
            lemma_expr_copied_frame(
                *prefix,
                *(n->StructFieldAccess_prefix),
                m,
                ts0a,
                ts1a,
                ts0b,
                ts1b,
            );
            lemma_id_rewrite_frame(
                field_to_access.type_id,
                (n->StructFieldAccess_field_to_access).type_id,
                m,
                ts0a,
                ts1a,
                ts0b,
                ts1b,
            );
            lemma_id_rewrite_frame(
                resolved_type_of_parent,
                n->StructFieldAccess_resolved_type_of_parent,
                m,
                ts0a,
                ts1a,
                ts0b,
                ts1b,
            );
        },
        TypedExpressionVariant::EnumArgAccess { prefix, resolved_type_of_parent, .. } => {
            lemma_expr_copied_frame(
                *prefix,
                *(n->EnumArgAccess_prefix),
                m,
                ts0a,
                ts1a,
                ts0b,
                ts1b,
            );
            lemma_id_rewrite_frame(
                resolved_type_of_parent,
                n->EnumArgAccess_resolved_type_of_parent,
                m,
                ts0a,
                ts1a,
                ts0b,
                ts1b,
            );
        },
        TypedExpressionVariant::TupleElemAccess { prefix, resolved_type_of_parent, .. } => {
            lemma_expr_copied_frame(
                *prefix,
                *(n->TupleElemAccess_prefix),
                m,
                ts0a,
                ts1a,
                ts0b,
                ts1b,
            );
            lemma_id_rewrite_frame(
                resolved_type_of_parent,
                n->TupleElemAccess_resolved_type_of_parent,
                m,
                ts0a,
                ts1a,
                ts0b,
                ts1b,
            );
        },
        TypedExpressionVariant::EnumInstantiation { enum_decl, contents, .. } => {
            lemma_decl_copied_frame(
                enum_decl,
                n->EnumInstantiation_enum_decl,
                m,
                ts0a,
                ts1a,
                ts0b,
                ts1b,
            );
            match (contents, n->EnumInstantiation_contents) {
                (Option::Some(ob), Option::Some(nb)) => {
                    lemma_expr_copied_frame(*ob, *nb, m, ts0a, ts1a, ts0b, ts1b);
                },
                _ => {},
            }
        },
        TypedExpressionVariant::AbiCast { address, .. } => {
            lemma_expr_copied_frame(*address, *(n->AbiCast_address), m, ts0a, ts1a, ts0b, ts1b);
        },
        TypedExpressionVariant::StorageAccess(..) => {},
        TypedExpressionVariant::SizeOf { variant } => {
            match (variant, n->SizeOf_variant) {
                (SizeOfVariant::Val(oe), SizeOfVariant::Val(ne)) => {
                    lemma_expr_copied_frame(*oe, *ne, m, ts0a, ts1a, ts0b, ts1b);
                },
                _ => {},
            }
        },
    }
}

fn clone_literal(l: &Literal) -> (r: Literal)
    ensures
        literal_eq(r, *l),
{
    match l {
        Literal::U8(x) => Literal::U8(*x),
        Literal::U16(x) => Literal::U16(*x),
        Literal::U32(x) => Literal::U32(*x),
        Literal::U64(x) => Literal::U64(*x),
        Literal::Numeric(x) => Literal::Numeric(*x),
        Literal::String(content) => Literal::String(content.clone()),
        Literal::Boolean(b) => Literal::Boolean(*b),
        Literal::Byte(x) => Literal::Byte(*x),
        Literal::B256(bytes) => Literal::B256(*bytes),
    }
}

fn clone_asm_op(op: &AsmOp) -> (r: AsmOp)
    ensures
        asm_op_eq(r, *op),
{
    let mut args: Vec<Ident> = Vec::new();
    let mut i: usize = 0;
    while i < op.op_args.len()
        invariant
            i <= op.op_args.len(),
            args@.len() == i as int,
            forall|j: int| 0 <= j < i as int ==> ident_eq(#[trigger] args@[j], op.op_args@[j]),
        decreases op.op_args.len() - i,
    {
        args.push(op.op_args[i].clone_ident());
        i = i + 1;
    }
    AsmOp {
        op_name: op.op_name.clone_ident(),
        op_args: args,
        span: op.span,
        immediate: match &op.immediate {
            Some(imm) => Some(imm.clone_ident()),
            None => None,
        },
    }
}

fn clone_implicit_return(r: &Option<(AsmRegister, Span)>) -> (n: Option<(AsmRegister, Span)>)
    ensures
        implicit_return_eq(n, *r),
{
    match r {
        Some((reg, span)) => Some((AsmRegister { name: reg.name.clone() }, *span)),
        None => None,
    }
}

fn clone_access(a: &TypeCheckedStorageAccess) -> (r: TypeCheckedStorageAccess)
    ensures
        access_eq(r, *a),
{
    TypeCheckedStorageAccess {
        field_ix_and_name: match &a.field_ix_and_name {
            Some((ix, name)) => Some((*ix, name.clone_ident())),
            None => None,
        },
        store_or_load: a.store_or_load,
    }
}

impl TypedExpression {
    /// A fresh copy of this expression with every embedded type handle
    /// rewritten under the substitution, as [`expr_copied`] states: covered
    /// generic-parameter handles become fresh references to their concrete
    /// arguments, unrelated handles are left untouched. Used when
    /// monomorphizing.
    pub fn copy_types(&self, type_mapping: &Vec<(TypeParameter, TypeId)>, engine: &mut Engine) -> (
        n: TypedExpression)
        ensures
            extends(final(engine).types(), old(engine).types()),
            forall|k: int|
                old(engine).types().len() <= k < final(engine).types().len()
                    ==> final(engine).types()[k] is Ref,
            expr_copied(*self, n, type_mapping@, old(engine).types(), final(engine).types()),
        decreases *self,
    {
        let ghost ts0 = engine.types();
        let new_variant = self.expression.copy_types(type_mapping, engine);
        let ghost mid = engine.types();
        let new_return = engine.substitute_id(self.return_type, type_mapping);
        proof {
            lemma_variant_copied_frame(
                self.expression,
                new_variant,
                type_mapping@,
                ts0,
                mid,
                ts0,
                engine.types(),
            );
            lemma_id_rewrite_frame(
                self.return_type,
                new_return,
                type_mapping@,
                mid,
                engine.types(),
                ts0,
                engine.types(),
            );
        }
        TypedExpression {
            expression: new_variant,
            return_type: new_return,
            is_constant: self.is_constant,
            span: self.span,
        }
    }
}

impl TypedCodeBlock {
    /// Copies every expression of the block under the substitution.
    #[verifier::loop_isolation(false)]
    pub fn copy_types(&self, type_mapping: &Vec<(TypeParameter, TypeId)>, engine: &mut Engine) -> (
        n: TypedCodeBlock)
        ensures
            extends(final(engine).types(), old(engine).types()),
            forall|k: int|
                old(engine).types().len() <= k < final(engine).types().len()
                    ==> final(engine).types()[k] is Ref,
            block_copied(*self, n, type_mapping@, old(engine).types(), final(engine).types()),
        decreases *self,
    {
        let ghost ts0 = engine.types();
        let mut buf: Vec<TypedExpression> = Vec::new();
        let mut i: usize = 0;
        while i < self.contents.len()
            invariant
                i <= self.contents.len(),
                buf@.len() == i as int,
                extends(engine.types(), ts0),
                forall|k: int|
                    ts0.len() <= k < engine.types().len() ==> (#[trigger] engine.types()[k]) is Ref,
                forall|j: int|
                    0 <= j < i as int ==> expr_copied(
                        #[trigger] self.contents@[j],
                        buf@[j],
                        type_mapping@,
                        ts0,
                        engine.types(),
                    ),
            decreases self.contents.len() - i,
        {
            let ghost pre = engine.types();
            let ne = self.contents[i].copy_types(type_mapping, engine);
            proof {
                assert forall|j: int|
                    0 <= j < i as int implies expr_copied(
                    #[trigger] self.contents@[j],
                    buf@[j],
                    type_mapping@,
                    ts0,
                    engine.types(),
                ) by {
                    lemma_expr_copied_frame(
                        self.contents@[j],
                        buf@[j],
                        type_mapping@,
                        ts0,
                        pre,
                        ts0,
                        engine.types(),
                    );
                }
                lemma_expr_copied_frame(
                    self.contents@[i as int],
                    ne,
                    type_mapping@,
                    pre,
                    engine.types(),
                    ts0,
                    engine.types(),
                );
            }
            buf.push(ne);
            i = i + 1;
        }
        TypedCodeBlock { contents: buf }
    }
}

impl TypedAsmRegisterDeclaration {
    /// Copies the register's initializer, if any, under the substitution.
    pub fn copy_types(&self, type_mapping: &Vec<(TypeParameter, TypeId)>, engine: &mut Engine) -> (
        n: TypedAsmRegisterDeclaration)
        ensures
            extends(final(engine).types(), old(engine).types()),
            forall|k: int|
                old(engine).types().len() <= k < final(engine).types().len()
                    ==> final(engine).types()[k] is Ref,
            reg_copied(*self, n, type_mapping@, old(engine).types(), final(engine).types()),
        decreases *self,
    {
        let initializer = match &self.initializer {
            Some(init) => Some(init.copy_types(type_mapping, engine)),
            None => None,
        };
        TypedAsmRegisterDeclaration { initializer, name: self.name.clone_ident() }
    }
}

impl TypedExpressionVariant {
    /// A fresh copy of this expression form with every embedded type handle
    /// rewritten under the substitution. The match is exhaustive over the
    /// variant set: a variant added later must extend this traversal, or
    /// monomorphization would silently produce wrong types.
    #[verifier::loop_isolation(false)]
    #[verifier::rlimit(100)]
    #[verifier::spinoff_prover]
    pub fn copy_types(&self, type_mapping: &Vec<(TypeParameter, TypeId)>, engine: &mut Engine) -> (
        n: TypedExpressionVariant)
        ensures
            extends(final(engine).types(), old(engine).types()),
            forall|k: int|
                old(engine).types().len() <= k < final(engine).types().len()
                    ==> final(engine).types()[k] is Ref,
            variant_copied(*self, n, type_mapping@, old(engine).types(), final(engine).types()),
        decreases *self,
    {
        let ghost ts0 = engine.types();
        let ghost m = type_mapping@;
        match self {
            TypedExpressionVariant::Literal(lit) => TypedExpressionVariant::Literal(
                clone_literal(lit),
            ),
            TypedExpressionVariant::FunctionApplication {
                name,
                arguments,
                function_body,
                selector,
            } => {
                let mut new_args: Vec<(Ident, TypedExpression)> = Vec::new();
                let mut i: usize = 0;
                while i < arguments.len()
                    invariant
                        i <= arguments.len(),
                        new_args@.len() == i as int,
                        extends(engine.types(), ts0),
                        forall|k: int|
                            ts0.len() <= k < engine.types().len() ==> (
                            #[trigger] engine.types()[k]) is Ref,
                        forall|j: int|
                            0 <= j < i as int ==> ident_eq(
                                (#[trigger] new_args@[j]).0,
                                arguments@[j].0,
                            ) && expr_copied(
                                arguments@[j].1,
                                new_args@[j].1,
                                m,
                                ts0,
                                engine.types(),
                            ),
                    decreases arguments.len() - i,
                {
                    let ghost pre = engine.types();
                    let ne = arguments[i].1.copy_types(type_mapping, engine);
                    proof {
                        assert forall|j: int|
                            0 <= j < i as int implies expr_copied(
                            arguments@[j].1,
                            (#[trigger] new_args@[j]).1,
                            m,
                            ts0,
                            engine.types(),
                        ) by {
                            lemma_expr_copied_frame(
                                arguments@[j].1,
                                new_args@[j].1,
                                m,
                                ts0,
                                pre,
                                ts0,
                                engine.types(),
                            );
                        }
                        lemma_expr_copied_frame(
                            arguments@[i as int].1,
                            ne,
                            m,
                            pre,
                            engine.types(),
                            ts0,
                            engine.types(),
                        );
                    }
                    new_args.push((arguments[i].0.clone_ident(), ne));
                    i = i + 1;
                }
                let ghost pre2 = engine.types();
                let new_body = function_body.copy_types(type_mapping, engine);
                proof {
                    assert forall|j: int|
                        0 <= j < arguments@.len() implies expr_copied(
                        arguments@[j].1,
                        (#[trigger] new_args@[j]).1,
                        m,
                        ts0,
                        engine.types(),
                    ) by {
                        lemma_expr_copied_frame(
                            arguments@[j].1,
                            new_args@[j].1,
                            m,
                            ts0,
                            pre2,
                            ts0,
                            engine.types(),
                        );
                    }
                    lemma_block_copied_frame(
                        *function_body,
                        new_body,
                        m,
                        pre2,
                        engine.types(),
                        ts0,
                        engine.types(),
                    );
                }
                let ghost pre3 = engine.types();
                let new_selector = match selector {
                    Some(meta) => {
                        let new_addr = meta.contract_address.copy_types(type_mapping, engine);
                        Some(
                            ContractCallMetadata {
                                func_selector: meta.func_selector,
                                contract_address: Box::new(new_addr),
                            },
                        )
                    },
                    None => None,
                };
                proof {
                    assert forall|j: int|
                        0 <= j < arguments@.len() implies expr_copied(
                        arguments@[j].1,
                        (#[trigger] new_args@[j]).1,
                        m,
                        ts0,
                        engine.types(),
                    ) by {
                        lemma_expr_copied_frame(
                            arguments@[j].1,
                            new_args@[j].1,
                            m,
                            ts0,
                            pre3,
                            ts0,
                            engine.types(),
                        );
                    }
                    lemma_block_copied_frame(
                        *function_body,
                        new_body,
                        m,
                        ts0,
                        pre3,
                        ts0,
                        engine.types(),
                    );
                    match (selector, &new_selector) {
                        (Option::Some(om), Option::Some(nm)) => {
                            lemma_expr_copied_frame(
                                *om.contract_address,
                                *nm.contract_address,
                                m,
                                pre3,
                                engine.types(),
                                ts0,
                                engine.types(),
                            );
                        },
                        _ => {},
                    }
                }
                TypedExpressionVariant::FunctionApplication {
                    name: name.clone_path(),
                    arguments: new_args,
                    function_body: new_body,
                    selector: new_selector,
                }
            },
            TypedExpressionVariant::LazyOperator { op, lhs, rhs } => {
                let new_lhs = lhs.copy_types(type_mapping, engine);
                let ghost pre = engine.types();
                let new_rhs = rhs.copy_types(type_mapping, engine);
                proof {
                    lemma_expr_copied_frame(
                        *(*lhs),
                        new_lhs,
                        m,
                        ts0,
                        pre,
                        ts0,
                        engine.types(),
                    );
                    lemma_expr_copied_frame(
                        *(*rhs),
                        new_rhs,
                        m,
                        pre,
                        engine.types(),
                        ts0,
                        engine.types(),
                    );
                }
                TypedExpressionVariant::LazyOperator {
                    op: *op,
                    lhs: Box::new(new_lhs),
                    rhs: Box::new(new_rhs),
                }
            },
            TypedExpressionVariant::VariableExpression { name } => {
                TypedExpressionVariant::VariableExpression { name: name.clone_ident() }
            },
            TypedExpressionVariant::Tuple { fields } => {
                let mut buf: Vec<TypedExpression> = Vec::new();
                let mut i: usize = 0;
                while i < fields.len()
                    invariant
                        i <= fields.len(),
                        buf@.len() == i as int,
                        extends(engine.types(), ts0),
                        forall|k: int|
                            ts0.len() <= k < engine.types().len() ==> (
                            #[trigger] engine.types()[k]) is Ref,
                        forall|j: int|
                            0 <= j < i as int ==> expr_copied(
                                #[trigger] fields@[j],
                                buf@[j],
                                m,
                                ts0,
                                engine.types(),
                            ),
                    decreases fields.len() - i,
                {
                    let ghost pre = engine.types();
                    let ne = fields[i].copy_types(type_mapping, engine);
                    proof {
                        assert forall|j: int|
                            0 <= j < i as int implies expr_copied(
                            #[trigger] fields@[j],
                            buf@[j],
                            m,
                            ts0,
                            engine.types(),
                        ) by {
                            lemma_expr_copied_frame(
                                fields@[j],
                                buf@[j],
                                m,
                                ts0,
                                pre,
                                ts0,
                                engine.types(),
                            );
                        }
                        lemma_expr_copied_frame(
                            fields@[i as int],
                            ne,
                            m,
                            pre,
                            engine.types(),
                            ts0,
                            engine.types(),
                        );
                    }
                    buf.push(ne);
                    i = i + 1;
                }
                TypedExpressionVariant::Tuple { fields: buf }
            },
            TypedExpressionVariant::Array { contents } => {
                let mut buf: Vec<TypedExpression> = Vec::new();
                let mut i: usize = 0;
                while i < contents.len()
                    invariant
                        i <= contents.len(),
                        buf@.len() == i as int,
                        extends(engine.types(), ts0),
                        forall|k: int|
                            ts0.len() <= k < engine.types().len() ==> (
                            #[trigger] engine.types()[k]) is Ref,
                        forall|j: int|
                            0 <= j < i as int ==> expr_copied(
                                #[trigger] contents@[j],
                                buf@[j],
                                m,
                                ts0,
                                engine.types(),
                            ),
                    decreases contents.len() - i,
                {
                    let ghost pre = engine.types();
                    let ne = contents[i].copy_types(type_mapping, engine);
                    proof {
                        assert forall|j: int|
                            0 <= j < i as int implies expr_copied(
                            #[trigger] contents@[j],
                            buf@[j],
                            m,
                            ts0,
                            engine.types(),
                        ) by {
                            lemma_expr_copied_frame(
                                contents@[j],
                                buf@[j],
                                m,
                                ts0,
                                pre,
                                ts0,
                                engine.types(),
                            );
                        }
                        lemma_expr_copied_frame(
                            contents@[i as int],
                            ne,
                            m,
                            pre,
                            engine.types(),
                            ts0,
                            engine.types(),
                        );
                    }
                    buf.push(ne);
                    i = i + 1;
                }
                TypedExpressionVariant::Array { contents: buf }
            },
            TypedExpressionVariant::ArrayIndex { prefix, index } => {
                let new_prefix = prefix.copy_types(type_mapping, engine);
                let ghost pre = engine.types();
                let new_index = index.copy_types(type_mapping, engine);
                proof {
                    lemma_expr_copied_frame(
                        *(*prefix),
                        new_prefix,
                        m,
                        ts0,
                        pre,
                        ts0,
                        engine.types(),
                    );
                    lemma_expr_copied_frame(
                        *(*index),
                        new_index,
                        m,
                        pre,
                        engine.types(),
                        ts0,
                        engine.types(),
                    );
                }
                TypedExpressionVariant::ArrayIndex {
                    prefix: Box::new(new_prefix),
                    index: Box::new(new_index),
                }
            },
            TypedExpressionVariant::StructExpression { struct_name, fields } => {
                let mut buf: Vec<TypedStructExpressionField> = Vec::new();
                let mut i: usize = 0;
                while i < fields.len()
                    invariant
                        i <= fields.len(),
                        buf@.len() == i as int,
                        extends(engine.types(), ts0),
                        forall|k: int|
                            ts0.len() <= k < engine.types().len() ==> (
                            #[trigger] engine.types()[k]) is Ref,
                        forall|j: int|
                            0 <= j < i as int ==> ident_eq(
                                (#[trigger] buf@[j]).name,
                                fields@[j].name,
                            ) && expr_copied(fields@[j].value, buf@[j].value, m, ts0, engine.types()),
                    decreases fields.len() - i,
                {
                    let ghost pre = engine.types();
                    let ne = fields[i].value.copy_types(type_mapping, engine);
                    proof {
                        assert forall|j: int|
                            0 <= j < i as int implies expr_copied(
                            fields@[j].value,
                            (#[trigger] buf@[j]).value,
                            m,
                            ts0,
                            engine.types(),
                        ) by {
                            lemma_expr_copied_frame(
                                fields@[j].value,
                                buf@[j].value,
                                m,
                                ts0,
                                pre,
                                ts0,
                                engine.types(),
                            );
                        }
                        lemma_expr_copied_frame(
                            fields@[i as int].value,
                            ne,
                            m,
                            pre,
                            engine.types(),
                            ts0,
                            engine.types(),
                        );
                    }
                    buf.push(
                        TypedStructExpressionField { name: fields[i].name.clone_ident(), value: ne },
                    );
                    i = i + 1;
                }
                TypedExpressionVariant::StructExpression {
                    struct_name: struct_name.clone_ident(),
                    fields: buf,
                }
            },
            TypedExpressionVariant::CodeBlock(block) => TypedExpressionVariant::CodeBlock(
                block.copy_types(type_mapping, engine),
            ),
            TypedExpressionVariant::FunctionParameter => TypedExpressionVariant::FunctionParameter,
            TypedExpressionVariant::IfExp { condition, then_branch, else_branch } => {
                let new_cond = condition.copy_types(type_mapping, engine);
                let ghost pre1 = engine.types();
                let new_then = then_branch.copy_types(type_mapping, engine);
                let ghost pre2 = engine.types();
                let new_else = match else_branch {
                    Some(e) => Some(Box::new(e.copy_types(type_mapping, engine))),
                    None => None,
                };
                proof {
                    lemma_expr_copied_frame(
                        *(*condition),
                        new_cond,
                        m,
                        ts0,
                        pre1,
                        ts0,
                        engine.types(),
                    );
                    lemma_expr_copied_frame(
                        *(*then_branch),
                        new_then,
                        m,
                        pre1,
                        pre2,
                        ts0,
                        engine.types(),
                    );
                    match (else_branch, &new_else) {
                        (Option::Some(ob), Option::Some(nb)) => {
                            lemma_expr_copied_frame(
                                *(*ob),
                                *(*nb),
                                m,
                                pre2,
                                engine.types(),
                                ts0,
                                engine.types(),
                            );
                        },
                        _ => {},
                    }
                }
                TypedExpressionVariant::IfExp {
                    condition: Box::new(new_cond),
                    then_branch: Box::new(new_then),
                    else_branch: new_else,
                }
            },
            TypedExpressionVariant::AsmExpression {
                registers,
                body,
                implicit_return,
                whole_block_span,
            } => {
                let mut new_regs: Vec<TypedAsmRegisterDeclaration> = Vec::new();
                let mut i: usize = 0;
                while i < registers.len()
                    invariant
                        i <= registers.len(),
                        new_regs@.len() == i as int,
                        extends(engine.types(), ts0),
                        forall|k: int|
                            ts0.len() <= k < engine.types().len() ==> (
                            #[trigger] engine.types()[k]) is Ref,
                        forall|j: int|
                            0 <= j < i as int ==> reg_copied(
                                #[trigger] registers@[j],
                                new_regs@[j],
                                m,
                                ts0,
                                engine.types(),
                            ),
                    decreases registers.len() - i,
                {
                    let ghost pre = engine.types();
                    let nr = registers[i].copy_types(type_mapping, engine);
                    proof {
                        assert forall|j: int|
                            0 <= j < i as int implies reg_copied(
                            #[trigger] registers@[j],
                            new_regs@[j],
                            m,
                            ts0,
                            engine.types(),
                        ) by {
                            match (registers@[j].initializer, new_regs@[j].initializer) {
                                (Option::Some(oe), Option::Some(ne2)) => {
                                    lemma_expr_copied_frame(
                                        oe,
                                        ne2,
                                        m,
                                        ts0,
                                        pre,
                                        ts0,
                                        engine.types(),
                                    );
                                },
                                _ => {},
                            }
                        }
                        match (registers@[i as int].initializer, &nr.initializer) {
                            (Option::Some(oe), Option::Some(ne2)) => {
                                lemma_expr_copied_frame(
                                    oe,
                                    *ne2,
                                    m,
                                    pre,
                                    engine.types(),
                                    ts0,
                                    engine.types(),
                                );
                            },
                            _ => {},
                        }
                    }
                    new_regs.push(nr);
                    i = i + 1;
                }
                let mut new_body: Vec<AsmOp> = Vec::new();
                let mut i: usize = 0;
                while i < body.len()
                    invariant
                        i <= body.len(),
                        new_body@.len() == i as int,
                        forall|j: int|
                            0 <= j < i as int ==> asm_op_eq(#[trigger] new_body@[j], body@[j]),
                    decreases body.len() - i,
                {
                    new_body.push(clone_asm_op(&body[i]));
                    i = i + 1;
                }
                TypedExpressionVariant::AsmExpression {
                    registers: new_regs,
                    body: new_body,
                    implicit_return: clone_implicit_return(implicit_return),
                    whole_block_span: *whole_block_span,
                }
            },
            TypedExpressionVariant::StructFieldAccess {
                prefix,
                field_to_access,
                resolved_type_of_parent,
                field_to_access_span,
            } => {
                let new_prefix = prefix.copy_types(type_mapping, engine);
                let ghost pre1 = engine.types();
                let new_field_id = engine.substitute_id(field_to_access.type_id, type_mapping);
                let ghost pre2 = engine.types();
                let new_parent = engine.substitute_id(*resolved_type_of_parent, type_mapping);
                proof {
                    lemma_expr_copied_frame(
                        *(*prefix),
                        new_prefix,
                        m,
                        ts0,
                        pre1,
                        ts0,
                        engine.types(),
                    );
                    lemma_id_rewrite_frame(
                        field_to_access.type_id,
                        new_field_id,
                        m,
                        pre1,
                        pre2,
                        ts0,
                        engine.types(),
                    );
                    lemma_id_rewrite_frame(
                        *resolved_type_of_parent,
                        new_parent,
                        m,
                        pre2,
                        engine.types(),
                        ts0,
                        engine.types(),
                    );
                }
                TypedExpressionVariant::StructFieldAccess {
                    prefix: Box::new(new_prefix),
                    field_to_access: OwnedTypedStructField {
                        name: field_to_access.name.clone(),
                        type_id: new_field_id,
                    },
                    resolved_type_of_parent: new_parent,
                    field_to_access_span: *field_to_access_span,
                }
            },
            TypedExpressionVariant::EnumArgAccess {
                prefix,
                arg_num_to_access,
                resolved_type_of_parent,
            } => {
                let new_prefix = prefix.copy_types(type_mapping, engine);
                let ghost pre = engine.types();
                let new_parent = engine.substitute_id(*resolved_type_of_parent, type_mapping);
                proof {
                    lemma_expr_copied_frame(
                        *(*prefix),
                        new_prefix,
                        m,
                        ts0,
                        pre,
                        ts0,
                        engine.types(),
                    );
                    lemma_id_rewrite_frame(
                        *resolved_type_of_parent,
                        new_parent,
                        m,
                        pre,
                        engine.types(),
                        ts0,
                        engine.types(),
                    );
                }
                TypedExpressionVariant::EnumArgAccess {
                    prefix: Box::new(new_prefix),
                    arg_num_to_access: *arg_num_to_access,
                    resolved_type_of_parent: new_parent,
                }
            },
            TypedExpressionVariant::TupleElemAccess {
                prefix,
                elem_to_access_num,
                resolved_type_of_parent,
                elem_to_access_span,
            } => {
                let new_prefix = prefix.copy_types(type_mapping, engine);
                let ghost pre = engine.types();
                let new_parent = engine.substitute_id(*resolved_type_of_parent, type_mapping);
                proof {
                    lemma_expr_copied_frame(
                        *(*prefix),
                        new_prefix,
                        m,
                        ts0,
                        pre,
                        ts0,
                        engine.types(),
                    );
                    lemma_id_rewrite_frame(
                        *resolved_type_of_parent,
                        new_parent,
                        m,
                        pre,
                        engine.types(),
                        ts0,
                        engine.types(),
                    );
                }
                TypedExpressionVariant::TupleElemAccess {
                    prefix: Box::new(new_prefix),
                    elem_to_access_num: *elem_to_access_num,
                    resolved_type_of_parent: new_parent,
                    elem_to_access_span: *elem_to_access_span,
                }
            },
            TypedExpressionVariant::EnumInstantiation { enum_decl, variant_name, tag, contents } => {
                let new_decl = enum_decl.copy_types(type_mapping, engine);
                let ghost pre = engine.types();
                let new_contents = match contents {
                    Some(c) => Some(Box::new(c.copy_types(type_mapping, engine))),
                    None => None,
                };
                proof {
                    lemma_decl_copied_frame(
                        *enum_decl,
                        new_decl,
                        m,
                        ts0,
                        pre,
                        ts0,
                        engine.types(),
                    );
                    match (contents, &new_contents) {
                        (Option::Some(ob), Option::Some(nb)) => {
                            lemma_expr_copied_frame(
                                *(*ob),
                                *(*nb),
                                m,
                                pre,
                                engine.types(),
                                ts0,
                                engine.types(),
                            );
                        },
                        _ => {},
                    }
                }
                TypedExpressionVariant::EnumInstantiation {
                    enum_decl: new_decl,
                    variant_name: variant_name.clone_ident(),
                    tag: *tag,
                    contents: new_contents,
                }
            },
            TypedExpressionVariant::AbiCast { abi_name, address, span } => {
                let new_addr = address.copy_types(type_mapping, engine);
                TypedExpressionVariant::AbiCast {
                    abi_name: abi_name.clone_path(),
                    address: Box::new(new_addr),
                    span: *span,
                }
            },
            // Storage is never generic and cannot be monomorphized.
            TypedExpressionVariant::StorageAccess(access) => {
                TypedExpressionVariant::StorageAccess(clone_access(access))
            },
            TypedExpressionVariant::SizeOf { variant } => match variant {
                SizeOfVariant::Type(t) => TypedExpressionVariant::SizeOf {
                    variant: SizeOfVariant::Type(*t),
                },
                SizeOfVariant::Val(e) => {
                    let ne = e.copy_types(type_mapping, engine);
                    TypedExpressionVariant::SizeOf { variant: SizeOfVariant::Val(Box::new(ne)) }
                },
            },
        }
    }
}

} // verus!
