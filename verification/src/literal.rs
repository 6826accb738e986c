//! Literal values as they appear in expressions.

use vstd::prelude::*;

verus! {

#[derive(Clone, Debug)]
pub enum Literal {
    U8(u8),
    U16(u16),
    U32(u32),
    U64(u64),
    /// An integer literal written without a width suffix.
    Numeric(u64),
    String(String),
    Boolean(bool),
    Byte(u8),
    B256([u8; 32]),
}

/// Two literals agree when they are the same form holding the same value.
pub open spec fn literal_eq(a: Literal, b: Literal) -> bool {
    match (a, b) {
        (Literal::U8(x), Literal::U8(y)) => x == y,
        (Literal::U16(x), Literal::U16(y)) => x == y,
        (Literal::U32(x), Literal::U32(y)) => x == y,
        (Literal::U64(x), Literal::U64(y)) => x == y,
        (Literal::Numeric(x), Literal::Numeric(y)) => x == y,
        (Literal::String(x), Literal::String(y)) => x@ == y@,
        (Literal::Boolean(x), Literal::Boolean(y)) => x == y,
        (Literal::Byte(x), Literal::Byte(y)) => x == y,
        (Literal::B256(x), Literal::B256(y)) => x@ == y@,
        _ => false,
    }
}

} // verus!
