//! Semantic core of a contract-oriented language compiler: an interned type
//! registry with deferred resolution, a generic-substitution mechanism that
//! monomorphizes declarations and typed expression trees, declaration typers
//! for enums and storage, an expression type-checker that accumulates
//! diagnostics instead of aborting, and a deterministic pretty-printer.

pub mod span;
pub mod decimal;
pub mod error;
pub mod casing;
pub mod literal;
pub mod type_engine;
pub mod resolved_type;
pub mod expression;
pub mod typed_enum;
pub mod typed_expression;
pub mod storage;
pub mod namespace;
pub mod enum_declaration;
pub mod enum_instantiation;
pub mod type_check;
pub mod reassignment;
pub mod inline_asm;
pub mod array;
pub mod fn_decl;
