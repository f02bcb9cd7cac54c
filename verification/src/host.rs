//! The model of the host compiler's side of the boundary: the identifiers,
//! spans and tree shapes that one frozen analysis pass hands to the
//! conversion engine, together with the byte sizes the host reports for its
//! own representations.
//!
//! The engine never trusts those byte sizes to match the portable layout:
//! every reinterpretation is guarded by a runtime equality check, and a
//! mismatch aborts the pass (see [`crate::ConvError::LayoutMismatch`]).

use vstd::prelude::*;

verus! {

/// A host definition id: a crate number plus an index within that crate.
#[derive(Clone, Copy, Debug, PartialEq, Eq, Structural)]
pub struct HostDefId {
    pub krate: u32,
    pub index: u32,
}

/// A host id for a node inside one owner item.
#[derive(Clone, Copy, Debug, PartialEq, Eq, Structural)]
pub struct HostHirId {
    pub owner: u32,
    pub index: u32,
}

/// A host body id, wrapping the id of the body's root node.
#[derive(Clone, Copy, Debug, PartialEq, Eq, Structural)]
pub struct HostBodyId {
    pub hir_id: HostHirId,
}

/// A host span: absolute byte offsets into the session-wide source map.
#[derive(Clone, Copy, Debug, PartialEq, Eq, Structural)]
pub struct HostSpan {
    pub lo: u32,
    pub hi: u32,
}

/// A host identifier: an interned symbol index plus the span it occupies.
#[derive(Clone, Copy, Debug, PartialEq, Eq, Structural)]
pub struct HostIdent {
    pub name: u32,
    pub span: HostSpan,
}

/// The calling convention of a host function signature.
#[derive(Clone, Copy, Debug, PartialEq, Eq, Structural)]
pub enum HostAbi {
    Rust,
    C,
    Other,
}

/// The origin a host source file reports for itself.
#[derive(Clone, Debug)]
pub enum HostFileName {
    /// A real file with a canonical path.
    Real(String),
    /// Source synthesized by a macro expansion.
    MacroExpansion,
    /// Source synthesized by a procedural macro.
    ProcMacroSourceCode,
}

/// One entry of the host's source map: a file name and the absolute offset
/// range its bytes occupy.
#[derive(Clone, Debug)]
pub struct HostFile {
    pub name: HostFileName,
    pub start_pos: u32,
    pub size: u32,
}

/// The byte sizes the host compiler reports for its own representations.
/// Each conversion compares the relevant entry with the portable layout
/// before reinterpreting anything.
#[derive(Clone, Copy, Debug, PartialEq, Eq, Structural)]
pub struct HostLayout {
    pub crate_num_bytes: usize,
    pub span_bytes: usize,
    pub symbol_bytes: usize,
    pub def_id_bytes: usize,
    pub body_id_bytes: usize,
    pub hir_id_bytes: usize,
}

impl HostLayout {
    /// The layout of a host whose representations match the portable ones.
    pub fn matching() -> (r: HostLayout)
        ensures
            r == (HostLayout {
                crate_num_bytes: 4usize,
                span_bytes: 8usize,
                symbol_bytes: 4usize,
                def_id_bytes: 8usize,
                body_id_bytes: 8usize,
                hir_id_bytes: 8usize,
            }),
    {
        HostLayout {
            crate_num_bytes: 4,
            span_bytes: 8,
            symbol_bytes: 4,
            def_id_bytes: 8,
            body_id_bytes: 8,
            hir_id_bytes: 8,
        }
    }
}

/// What a host path ultimately resolves to.
#[derive(Clone, Copy, Debug, PartialEq, Eq, Structural)]
pub enum HostRes {
    Trait(HostDefId),
    TraitAlias(HostDefId),
    Other,
}

/// One segment of a host path.
#[derive(Clone, Copy, Debug, PartialEq, Eq, Structural)]
pub struct HostPathSegment {
    pub ident: HostIdent,
}

/// A host path: its segments in source order plus its resolution.
#[derive(Clone, Debug)]
pub struct HostPath {
    pub segments: Vec<HostPathSegment>,
    pub res: HostRes,
}

/// A host qualified path.  Only plainly resolved paths without a self type
/// have a portable representation so far.
#[derive(Clone, Debug)]
pub enum HostQPath {
    Resolved(HostPath),
    ResolvedWithSelfTy(HostPath),
    TypeRelative,
    LangItem,
}

/// A host trait reference.
#[derive(Clone, Debug)]
pub struct HostTraitRef {
    pub path: HostPath,
}

/// A host lifetime as it appears in bounds and clauses.
#[derive(Clone, Copy, Debug, PartialEq, Eq, Structural)]
pub enum HostLifetime {
    Named(u32),
    Static,
    Anonymous,
}

/// A host syntactic type.  The conversion engine only reads its span.
#[derive(Clone, Copy, Debug, PartialEq, Eq, Structural)]
pub struct HostTy {
    pub span: HostSpan,
}

/// How a host generic parameter is named.
#[derive(Clone, Copy, Debug, PartialEq, Eq, Structural)]
pub enum HostParamName {
    Plain(u32),
    Fresh,
}

/// The kind of a host generic parameter.
#[derive(Clone, Copy, Debug, PartialEq, Eq, Structural)]
pub enum HostGenericParamKind {
    Lifetime { explicit: bool },
    Ty { synthetic: bool },
    Const,
}

/// A host generic parameter declaration.
#[derive(Clone, Copy, Debug, PartialEq, Eq, Structural)]
pub struct HostGenericParam {
    pub owner_def_id: HostDefId,
    pub name: HostParamName,
    pub span: HostSpan,
    pub kind: HostGenericParamKind,
}

/// A host bound on a type parameter.
#[derive(Clone, Debug)]
pub enum HostGenericBound {
    Trait { trait_ref: HostTraitRef, relaxed: bool, span: HostSpan },
    LangItemTrait,
    Outlives(HostLifetime),
}

/// A host `where` predicate.  Lifetimes can only be bound by lifetimes, so
/// a region predicate carries them directly.
#[derive(Clone, Debug)]
pub enum HostWherePredicate {
    Bound { bound_generic_params: Vec<HostGenericParam>, bounded_ty: HostTy, bounds: Vec<HostGenericBound> },
    Region { lifetime: HostLifetime, bounds: Vec<HostLifetime> },
}

/// The generics attached to a host item.
#[derive(Clone, Debug)]
pub struct HostGenerics {
    pub params: Vec<HostGenericParam>,
    pub predicates: Vec<HostWherePredicate>,
}

/// The header of a host function signature.
#[derive(Clone, Copy, Debug, PartialEq, Eq, Structural)]
pub struct HostFnHeader {
    pub is_const: bool,
    pub is_async: bool,
    pub is_unsafe: bool,
    pub abi: HostAbi,
}

/// The declaration part of a host function signature.
#[derive(Clone, Debug)]
pub struct HostFnDecl {
    pub inputs: Vec<HostTy>,
    pub output: Option<HostTy>,
    pub implicit_self: bool,
}

/// A host function signature.
#[derive(Clone, Debug)]
pub struct HostFnSig {
    pub header: HostFnHeader,
    pub decl: HostFnDecl,
}

/// How a host `use` item brings names in.
#[derive(Clone, Copy, Debug, PartialEq, Eq, Structural)]
pub enum HostUseKind {
    Single,
    Glob,
    ListStem,
}

/// The payload of a host `impl` item.  `items` holds indices into the
/// unit's associated-item table.
#[derive(Clone, Debug)]
pub struct HostImplData {
    pub is_unsafe: bool,
    pub polarity_positive: bool,
    pub of_trait: Option<HostTraitRef>,
    pub generics: HostGenerics,
    pub self_ty: HostTy,
    pub items: Vec<usize>,
}

/// The kind of a host item.  A `Mod` holds indices into the unit's item
/// table; the unit is well formed only if those indices point strictly
/// below the module itself, which is how this model states that host trees
/// are acyclic.
#[derive(Clone, Debug)]
pub enum HostItemKind {
    ExternCrate(Option<u32>),
    Use(HostPath, HostUseKind),
    Static(HostTy, bool, HostBodyId),
    Const(HostTy, HostBodyId),
    Fn(HostFnSig, HostGenerics, HostBodyId),
    Mod(Vec<usize>),
    ForeignMod,
    Macro,
    GlobalAsm,
    TyAlias(HostTy, HostGenerics),
    OpaqueTy,
    Enum,
    Struct,
    Union,
    Trait,
    TraitAlias,
    Impl(HostImplData),
}

/// A host item: the definition id of its owner, its name, and its kind.
#[derive(Clone, Debug)]
pub struct HostItem {
    pub owner_def_id: HostDefId,
    pub ident_name: u32,
    pub kind: HostItemKind,
}

/// The kind of a host associated item inside an `impl` block.
#[derive(Clone, Debug)]
pub enum HostImplItemKind {
    Const(HostTy, HostBodyId),
    Fn(HostFnSig, HostBodyId),
    Type(HostTy),
}

/// A host associated item.
#[derive(Clone, Debug)]
pub struct HostImplItem {
    pub owner_def_id: HostDefId,
    pub ident_name: u32,
    pub generics: HostGenerics,
    pub kind: HostImplItemKind,
}

/// One frozen program unit of the host: every item and associated item the
/// pass may be asked to convert.
#[derive(Clone, Debug)]
pub struct HostUnit {
    pub items: Vec<HostItem>,
    pub impl_items: Vec<HostImplItem>,
}

impl HostUnit {
    /// Well-formedness of a frozen unit: modules only point at items that
    /// stand strictly before them (the model of an acyclic host tree), impl
    /// blocks only point at existing associated items, and the host gives
    /// every item its own definition id.
    pub open spec fn wf(self) -> bool {
        &&& forall|i: int|
            0 <= i < self.items@.len() ==> #[trigger] host_item_children_wf(
                self.items@[i].kind,
                i,
                self.impl_items@.len() as int,
            )
        &&& forall|i: int, j: int|
            0 <= i < j < self.items@.len() ==> (#[trigger] self.items@[i]).owner_def_id != (
            #[trigger] self.items@[j]).owner_def_id
        &&& forall|i: int, j: int|
            0 <= i < j < self.impl_items@.len() ==> (#[trigger] self.impl_items@[i]).owner_def_id
                != (#[trigger] self.impl_items@[j]).owner_def_id
        &&& forall|i: int, j: int|
            0 <= i < self.items@.len() && 0 <= j < self.impl_items@.len() ==> (
            #[trigger] self.items@[i]).owner_def_id != (
            #[trigger] self.impl_items@[j]).owner_def_id
    }
}

/// The child indices of one host item kind are in range: module children
/// stand strictly below the module, impl children inside the unit's
/// associated-item table.
pub open spec fn host_item_children_wf(kind: HostItemKind, at: int, n_impl_items: int) -> bool {
    match kind {
        HostItemKind::Mod(children) => forall|j: int|
            0 <= j < children@.len() ==> 0 <= #[trigger] children@[j] < at,
        HostItemKind::Impl(data) => forall|j: int|
            0 <= j < data.items@.len() ==> 0 <= #[trigger] data.items@[j] < n_impl_items,
        _ => true,
    }
}

} // verus!
