//! Code generation for function declarations. This stage is a stub: every
//! function is inlined at its call sites, so a declaration on its own
//! emits no instructions.

use vstd::prelude::*;

use crate::error::{ok, CompileResult};
use crate::span::Ident;
use crate::typed_expression::{AsmRegister, TypedCodeBlock};

verus! {

/// One emitted instruction of the assembly-like target.
#[derive(Debug)]
pub struct Op {
    pub opcode: Ident,
    pub registers: Vec<AsmRegister>,
}

/// Names already bound in the emitted assembly.
pub struct AsmNamespace {
    pub bound: Vec<Ident>,
}

/// Hands out fresh virtual register numbers.
pub struct RegisterSequencer {
    pub next: u64,
}

/// A function declaration after checking: its name and checked body.
#[derive(Debug)]
pub struct TypedFunctionDeclaration {
    pub name: Ident,
    pub body: TypedCodeBlock,
}

/// Emits the code for a function declaration: nothing, since for now every
/// function is inlined as a shortcut.
pub fn convert_fn_decl_to_asm(
    _decl: &TypedFunctionDeclaration,
    _namespace: &mut AsmNamespace,
    _register_sequencer: &mut RegisterSequencer,
) -> (r: CompileResult<Vec<Op>>)
    ensures
        r.value matches Some(ops) && ops@.len() == 0,
        r.warnings@.len() == 0,
        r.errors@.len() == 0,
{
    ok(Vec::new(), Vec::new(), Vec::new())
}

} // verus!
