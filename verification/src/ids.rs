//! The portable id family: fixed-width, copyable values standing for host
//! entities.  Each id is built field by field from the host identifier it
//! mirrors, so the same host entity always yields the same portable value
//! within one pass, and the original host identity can be recovered again.

use vstd::prelude::*;

verus! {

/// Identifies a crate taking part in the compilation session.
#[derive(Clone, Copy, Debug, PartialEq, Eq, Structural, Hash)]
pub struct CrateId {
    pub index: u32,
}

/// Identifies a span; mirrors the host's span identifier byte for byte.
#[derive(Clone, Copy, Debug, PartialEq, Eq, Structural, Hash)]
pub struct SpanId {
    pub lo: u32,
    pub hi: u32,
}

/// Identifies an interned symbol of the host session.
#[derive(Clone, Copy, Debug, PartialEq, Eq, Structural, Hash)]
pub struct SymbolId {
    pub index: u32,
}

/// Identifies a generic parameter definition.
#[derive(Clone, Copy, Debug, PartialEq, Eq, Structural, Hash)]
pub struct GenericId {
    pub krate: u32,
    pub index: u32,
}

/// Identifies a type definition.
#[derive(Clone, Copy, Debug, PartialEq, Eq, Structural, Hash)]
pub struct TyDefId {
    pub krate: u32,
    pub index: u32,
}

/// Identifies an item.
#[derive(Clone, Copy, Debug, PartialEq, Eq, Structural, Hash)]
pub struct ItemId {
    pub krate: u32,
    pub index: u32,
}

/// Identifies a body (the code owned by an item).
#[derive(Clone, Copy, Debug, PartialEq, Eq, Structural, Hash)]
pub struct BodyId {
    pub owner: u32,
    pub index: u32,
}

/// Identifies a local variable.
#[derive(Clone, Copy, Debug, PartialEq, Eq, Structural, Hash)]
pub struct VarId {
    pub owner: u32,
    pub index: u32,
}

/// Identifies a `let` statement.
#[derive(Clone, Copy, Debug, PartialEq, Eq, Structural, Hash)]
pub struct LetStmtId {
    pub owner: u32,
    pub index: u32,
}

/// Identifies an expression.
#[derive(Clone, Copy, Debug, PartialEq, Eq, Structural, Hash)]
pub struct ExprId {
    pub owner: u32,
    pub index: u32,
}

/// The inner payload of a statement id: statements are identified through
/// the node that makes them up.
#[derive(Clone, Copy, Debug, PartialEq, Eq, Structural, Hash)]
pub enum StmtIdInner {
    Item(ItemId),
    LetStmt(LetStmtId),
    Expr(ExprId),
}

/// Identifies a statement.
#[derive(Clone, Copy, Debug, PartialEq, Eq, Structural, Hash)]
pub struct StmtId {
    pub inner: StmtIdInner,
}

impl StmtId {
    pub fn ast_new(inner: StmtIdInner) -> (r: StmtId)
        ensures
            r.inner == inner,
    {
        StmtId { inner }
    }
}

/// A name together with the span it was written at.
#[derive(Clone, Copy, Debug, PartialEq, Eq, Structural)]
pub struct Ident {
    pub name: SymbolId,
    pub span: SpanId,
}

impl Ident {
    pub fn new(name: SymbolId, span: SpanId) -> (r: Ident)
        ensures
            r.name == name,
            r.span == span,
    {
        Ident { name, span }
    }
}

/// Packs a two-field id into one cache key.  Injective: see
/// [`lemma_encode_pair_injective`].
pub open spec fn spec_encode_pair(hi: u32, lo: u32) -> u64 {
    ((hi as int) * 0x1_0000_0000 + (lo as int)) as u64
}

pub fn encode_pair(hi: u32, lo: u32) -> (r: u64)
    ensures
        r == spec_encode_pair(hi, lo),
{
    (hi as u64) * 0x1_0000_0000u64 + (lo as u64)
}

/// Two distinct two-field ids never collide on one cache key.
pub proof fn lemma_encode_pair_injective(a_hi: u32, a_lo: u32, b_hi: u32, b_lo: u32)
    requires
        spec_encode_pair(a_hi, a_lo) == spec_encode_pair(b_hi, b_lo),
    ensures
        a_hi == b_hi,
        a_lo == b_lo,
{
}

} // verus!
