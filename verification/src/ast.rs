//! The portable AST model: spans, paths, generics, types and items.
//!
//! Every node is made of fixed-width ids and plain values, so the same model
//! can be compiled on both sides of the plugin boundary.  Item nodes live in
//! the pass arena owned by the conversion engine; a node reference is the
//! node's arena index and stays valid for the whole pass.

use vstd::prelude::*;
use crate::ids::{BodyId, GenericId, ItemId, SpanId, SymbolId};

verus! {

/// Identifies the origin of a span.  The only supported origin is a real
/// source file, interned once per distinct canonical path; the value is the
/// index of that path in the pass context's source table.
#[derive(Clone, Copy, Debug, PartialEq, Eq, Structural)]
pub enum SpanSource {
    File(u32),
}

/// A region of source text: an origin plus start and end offsets relative
/// to the start of that origin, independent of the host's own numbering.
#[derive(Clone, Copy, Debug, PartialEq, Eq, Structural)]
pub struct Span {
    pub source: SpanSource,
    pub start: usize,
    pub end: usize,
}

impl Span {
    pub fn new(source: SpanSource, start: usize, end: usize) -> (r: Span)
        ensures
            r == (Span { source, start, end }),
    {
        Span { source, start, end }
    }
}

/// The calling convention recorded for a callable.
#[derive(Clone, Copy, Debug, PartialEq, Eq, Structural)]
pub enum Abi {
    /// The host language's own default convention.
    Default,
    C,
    Other,
}

/// Whether a static owns mutable memory.
#[derive(Clone, Copy, Debug, PartialEq, Eq, Structural)]
pub enum Mutability {
    Mut,
    Not,
}

/// One segment of a portable path.
#[derive(Clone, Copy, Debug, PartialEq, Eq, Structural)]
pub struct AstPathSegment {
    pub name: SymbolId,
}

impl AstPathSegment {
    pub fn new(name: SymbolId) -> (r: AstPathSegment)
        ensures
            r.name == name,
    {
        AstPathSegment { name }
    }
}

/// A portable path: its segments in source order.
#[derive(Clone, Debug)]
pub struct AstPath {
    pub segments: Vec<AstPathSegment>,
}

impl AstPath {
    pub fn new(segments: Vec<AstPathSegment>) -> (r: AstPath)
        ensures
            r.segments == segments,
    {
        AstPath { segments }
    }
}

/// A portable lifetime: either a named label or the static lifetime.
#[derive(Clone, Copy, Debug, PartialEq, Eq, Structural)]
pub struct Lifetime {
    /// `Some` for a labelled lifetime, `None` for the static lifetime.
    pub label: Option<SymbolId>,
}

/// A reference to a trait definition.
#[derive(Clone, Copy, Debug, PartialEq, Eq, Structural)]
pub struct TraitRef {
    pub trait_id: ItemId,
}

impl TraitRef {
    pub fn new(trait_id: ItemId) -> (r: TraitRef)
        ensures
            r.trait_id == trait_id,
    {
        TraitRef { trait_id }
    }
}

/// A portable syntactic type node.  The engine records where the type was
/// written; its structure is not modeled yet.
#[derive(Clone, Copy, Debug, PartialEq, Eq, Structural)]
pub struct SynTyKind {
    pub span: SpanId,
}

/// A portable pattern.
#[derive(Clone, Copy, Debug, PartialEq, Eq, Structural)]
pub enum PatKind {
    Ident { var: crate::ids::VarId, name: SymbolId },
    Wildcard,
}

/// A lifetime parameter declaration.
#[derive(Clone, Copy, Debug, PartialEq, Eq, Structural)]
pub struct LifetimeParam {
    pub id: GenericId,
    pub name: SymbolId,
    pub span: Option<SpanId>,
}

/// A type parameter declaration.
#[derive(Clone, Copy, Debug, PartialEq, Eq, Structural)]
pub struct TyParam {
    pub span: Option<SpanId>,
    pub name: SymbolId,
    pub id: GenericId,
}

/// A declared generic parameter.
#[derive(Clone, Copy, Debug, PartialEq, Eq, Structural)]
pub enum GenericParamKind {
    Lifetime(LifetimeParam),
    Ty(TyParam),
}

/// A bound on a trait reference within a type clause.
#[derive(Clone, Copy, Debug, PartialEq, Eq, Structural)]
pub struct TraitBound {
    pub is_relaxed: bool,
    pub trait_ref: TraitRef,
    pub span: SpanId,
}

/// A bound that a type clause puts on its type.
#[derive(Clone, Copy, Debug, PartialEq, Eq, Structural)]
pub enum TyParamBound {
    TraitBound(TraitBound),
    Lifetime(Lifetime),
}

/// A `where` clause bounding a type.
#[derive(Clone, Debug)]
pub struct TyClause {
    pub params: Vec<GenericParamKind>,
    pub ty: SynTyKind,
    pub bounds: Vec<TyParamBound>,
}

/// A `where` clause bounding a lifetime.
#[derive(Clone, Debug)]
pub struct LifetimeClause {
    pub lifetime: Lifetime,
    pub bounds: Vec<Lifetime>,
}

/// One `where` clause.
#[derive(Clone, Debug)]
pub enum WhereClauseKind {
    Ty(TyClause),
    Lifetime(LifetimeClause),
}

/// The generic parameters and clauses attached to an item.
#[derive(Clone, Debug)]
pub struct GenericParams {
    pub params: Vec<GenericParamKind>,
    pub clauses: Vec<WhereClauseKind>,
}

impl GenericParams {
    pub fn new(params: Vec<GenericParamKind>, clauses: Vec<WhereClauseKind>) -> (r: GenericParams)
        ensures
            r.params == params,
            r.clauses == clauses,
    {
        GenericParams { params, clauses }
    }
}

/// One parameter of a callable.
#[derive(Clone, Copy, Debug, PartialEq, Eq, Structural)]
pub struct Parameter {
    pub pat: Option<PatKind>,
    pub ty: Option<SynTyKind>,
    pub span: Option<SpanId>,
}

/// The data shared by every callable: its qualifiers, convention,
/// parameters in declaration order, and return type.
#[derive(Clone, Debug)]
pub struct CommonCallableData {
    pub is_const: bool,
    pub is_async: bool,
    pub is_unsafe: bool,
    pub is_extern: bool,
    pub abi: Abi,
    pub has_self: bool,
    pub params: Vec<Parameter>,
    pub return_ty: Option<SynTyKind>,
}

/// The header every portable item carries: its id and its name.
#[derive(Clone, Copy, Debug, PartialEq, Eq, Structural)]
pub struct CommonItemData {
    pub id: ItemId,
    pub name: SymbolId,
}

impl CommonItemData {
    pub fn new(id: ItemId, name: SymbolId) -> (r: CommonItemData)
        ensures
            r.id == id,
            r.name == name,
    {
        CommonItemData { id, name }
    }
}

/// How a `use` item brings names in.
#[derive(Clone, Copy, Debug, PartialEq, Eq, Structural)]
pub enum UseKind {
    Single,
    Glob,
}

/// The kind-specific payload of a portable item.  `Mod` and `Impl` hold the
/// arena indices of their member items, in the host's declaration order with
/// recoverably-unsupported members absent.
#[derive(Clone, Debug)]
pub enum ItemVariant {
    ExternCrate { original_name: SymbolId },
    Use { path: AstPath, use_kind: UseKind },
    Static { mutability: Mutability, body: BodyId, ty: SynTyKind },
    Const { ty: SynTyKind, body: Option<BodyId> },
    Fn { generics: GenericParams, sig: CommonCallableData, body: Option<BodyId> },
    Mod { items: Vec<usize> },
    TyAlias { generics: GenericParams, ty: Option<SynTyKind> },
    Impl {
        is_unsafe: bool,
        is_positive: bool,
        of_trait: Option<TraitRef>,
        generics: GenericParams,
        self_ty: SynTyKind,
        assoc_items: Vec<usize>,
    },
}

/// A portable item as it stands in the pass arena.
#[derive(Clone, Debug)]
pub struct Item {
    pub data: CommonItemData,
    pub kind: ItemVariant,
}

} // verus!
