//! The conversion context: maps host-internal identifiers, spans and small
//! nodes onto their portable counterparts.
//!
//! Every reinterpretation of a host representation is preceded by a runtime
//! equality check of the host's and the portable layout's byte sizes; a
//! mismatch is fatal and aborts the pass before any output is produced.
//! The portable value itself is then built field by field, so the original
//! host identity can always be recovered from it.

use vstd::prelude::*;
use vstd::std_specs::hash::obeys_key_model;
use std::collections::HashMap;
use crate::ast::{Abi, AstPath, AstPathSegment, Lifetime, Span, SpanSource, SynTyKind, TraitRef};
use crate::errors::{ConvError, IdKind, UnsupportedKind};
use crate::host::{
    HostAbi, HostBodyId, HostDefId, HostFile, HostFileName, HostHirId, HostIdent, HostLayout,
    HostLifetime, HostPath, HostPathSegment, HostQPath, HostRes, HostSpan, HostTraitRef, HostTy,
};
use crate::ids::{BodyId, CrateId, GenericId, Ident, ItemId, SpanId, SymbolId, TyDefId, VarId};

verus! {

broadcast use vstd::std_specs::hash::group_hash_axioms;

/// The byte width of a portable [`CrateId`].
pub const CRATE_ID_BYTES: usize = 4;

/// The byte width of a portable [`SpanId`].
pub const SPAN_ID_BYTES: usize = 8;

/// The byte width of a portable [`SymbolId`].
pub const SYMBOL_ID_BYTES: usize = 4;

/// The byte width of a portable [`GenericId`].
pub const GENERIC_ID_BYTES: usize = 8;

/// The byte width of a portable [`TyDefId`].
pub const TY_DEF_ID_BYTES: usize = 8;

/// The byte width of a portable [`ItemId`].
pub const ITEM_ID_BYTES: usize = 8;

/// The byte width of a portable [`BodyId`].
pub const BODY_ID_BYTES: usize = 8;

/// The byte width of a portable [`VarId`].
pub const VAR_ID_BYTES: usize = 8;

/// Whether every byte size the conversion engine relies on matches the
/// portable layout.
pub open spec fn layout_all_ok(layout: HostLayout) -> bool {
    &&& layout.def_id_bytes == ITEM_ID_BYTES
    &&& layout.symbol_bytes == SYMBOL_ID_BYTES
    &&& layout.span_bytes == SPAN_ID_BYTES
    &&& layout.body_id_bytes == BODY_ID_BYTES
}

/// What converting a host crate number yields under the given layout.
pub open spec fn spec_crate_id(layout: HostLayout, raw: u32) -> Result<CrateId, ConvError> {
    if layout.crate_num_bytes == CRATE_ID_BYTES {
        Ok(CrateId { index: raw })
    } else {
        Err(ConvError::LayoutMismatch {
            kind: IdKind::Crate,
            host_bytes: layout.crate_num_bytes,
            portable_bytes: CRATE_ID_BYTES,
        })
    }
}

/// What converting a host span to a span id yields under the given layout.
pub open spec fn spec_span_id(layout: HostLayout, span: HostSpan) -> Result<SpanId, ConvError> {
    if layout.span_bytes == SPAN_ID_BYTES {
        Ok(SpanId { lo: span.lo, hi: span.hi })
    } else {
        Err(ConvError::LayoutMismatch {
            kind: IdKind::Span,
            host_bytes: layout.span_bytes,
            portable_bytes: SPAN_ID_BYTES,
        })
    }
}

/// What converting a host symbol yields under the given layout.
pub open spec fn spec_symbol_id(layout: HostLayout, raw: u32) -> Result<SymbolId, ConvError> {
    if layout.symbol_bytes == SYMBOL_ID_BYTES {
        Ok(SymbolId { index: raw })
    } else {
        Err(ConvError::LayoutMismatch {
            kind: IdKind::Symbol,
            host_bytes: layout.symbol_bytes,
            portable_bytes: SYMBOL_ID_BYTES,
        })
    }
}

/// What converting a host definition id to a generic id yields.
pub open spec fn spec_generic_id(layout: HostLayout, id: HostDefId) -> Result<GenericId, ConvError> {
    if layout.def_id_bytes == GENERIC_ID_BYTES {
        Ok(GenericId { krate: id.krate, index: id.index })
    } else {
        Err(ConvError::LayoutMismatch {
            kind: IdKind::Generic,
            host_bytes: layout.def_id_bytes,
            portable_bytes: GENERIC_ID_BYTES,
        })
    }
}

/// What converting a host definition id to a type-definition id yields.
pub open spec fn spec_ty_def_id(layout: HostLayout, id: HostDefId) -> Result<TyDefId, ConvError> {
    if layout.def_id_bytes == TY_DEF_ID_BYTES {
        Ok(TyDefId { krate: id.krate, index: id.index })
    } else {
        Err(ConvError::LayoutMismatch {
            kind: IdKind::TyDef,
            host_bytes: layout.def_id_bytes,
            portable_bytes: TY_DEF_ID_BYTES,
        })
    }
}

/// What converting a host definition id to an item id yields.
pub open spec fn spec_item_id(layout: HostLayout, id: HostDefId) -> Result<ItemId, ConvError> {
    if layout.def_id_bytes == ITEM_ID_BYTES {
        Ok(ItemId { krate: id.krate, index: id.index })
    } else {
        Err(ConvError::LayoutMismatch {
            kind: IdKind::Item,
            host_bytes: layout.def_id_bytes,
            portable_bytes: ITEM_ID_BYTES,
        })
    }
}

/// What converting a host body id yields.
pub open spec fn spec_body_id(layout: HostLayout, id: HostBodyId) -> Result<BodyId, ConvError> {
    if layout.body_id_bytes == BODY_ID_BYTES {
        Ok(BodyId { owner: id.hir_id.owner, index: id.hir_id.index })
    } else {
        Err(ConvError::LayoutMismatch {
            kind: IdKind::Body,
            host_bytes: layout.body_id_bytes,
            portable_bytes: BODY_ID_BYTES,
        })
    }
}

/// What converting a host node id to a variable id yields.
pub open spec fn spec_var_id(layout: HostLayout, id: HostHirId) -> Result<VarId, ConvError> {
    if layout.hir_id_bytes == VAR_ID_BYTES {
        Ok(VarId { owner: id.owner, index: id.index })
    } else {
        Err(ConvError::LayoutMismatch {
            kind: IdKind::Var,
            host_bytes: layout.hir_id_bytes,
            portable_bytes: VAR_ID_BYTES,
        })
    }
}

/// What converting a host identifier yields: its symbol and its span.
pub open spec fn spec_ident(layout: HostLayout, ident: HostIdent) -> Result<Ident, ConvError> {
    match spec_symbol_id(layout, ident.name) {
        Ok(name) => match spec_span_id(layout, ident.span) {
            Ok(span) => Ok(Ident { name, span }),
            Err(e) => Err(e),
        },
        Err(e) => Err(e),
    }
}

/// What converting a host calling convention yields.
pub open spec fn spec_abi(abi: HostAbi) -> Abi {
    match abi {
        HostAbi::Rust => Abi::Default,
        HostAbi::C => Abi::C,
        HostAbi::Other => Abi::Other,
    }
}

/// What converting a host lifetime yields: anonymous lifetimes have no
/// portable representation and are omitted.
pub open spec fn spec_lifetime(lt: HostLifetime) -> Option<Lifetime> {
    match lt {
        HostLifetime::Named(raw) => Some(Lifetime { label: Some(SymbolId { index: raw }) }),
        HostLifetime::Static => Some(Lifetime { label: None }),
        HostLifetime::Anonymous => None,
    }
}

/// What converting the segments of a host path yields, in source order.
pub open spec fn spec_path_segments(layout: HostLayout, segs: Seq<HostPathSegment>) -> Result<
    Seq<AstPathSegment>,
    ConvError,
>
    decreases segs.len(),
{
    if segs.len() == 0 {
        Ok(Seq::empty())
    } else {
        match spec_symbol_id(layout, segs[0].ident.name) {
            Ok(name) => match spec_path_segments(layout, segs.drop_first()) {
                Ok(rest) => Ok(seq![AstPathSegment { name }] + rest),
                Err(e) => Err(e),
            },
            Err(e) => Err(e),
        }
    }
}

/// Prepends an already-converted prefix to the outcome of converting the
/// remaining segments.
pub open spec fn spec_combine_segments(
    done: Seq<AstPathSegment>,
    rest: Result<Seq<AstPathSegment>, ConvError>,
) -> Result<Seq<AstPathSegment>, ConvError> {
    match rest {
        Ok(r) => Ok(done + r),
        Err(e) => Err(e),
    }
}

/// What converting a host trait reference yields.  Only paths resolving to
/// a trait or trait alias reach the conversion engine.
pub open spec fn spec_trait_ref(layout: HostLayout, tr: HostTraitRef) -> Result<
    TraitRef,
    ConvError,
>
    recommends
        tr.path.res is Trait || tr.path.res is TraitAlias,
{
    match tr.path.res {
        HostRes::Trait(def_id) => match spec_item_id(layout, def_id) {
            Ok(id) => Ok(TraitRef { trait_id: id }),
            Err(e) => Err(e),
        },
        HostRes::TraitAlias(def_id) => match spec_item_id(layout, def_id) {
            Ok(id) => Ok(TraitRef { trait_id: id }),
            Err(e) => Err(e),
        },
        HostRes::Other => arbitrary(),
    }
}

/// What converting a host syntactic type yields.
pub open spec fn spec_conv_ty(layout: HostLayout, ty: HostTy) -> Result<SynTyKind, ConvError> {
    match spec_span_id(layout, ty.span) {
        Ok(span) => Ok(SynTyKind { span }),
        Err(e) => Err(e),
    }
}

/// The pass-scoped conversion context: the host's reported layout, its
/// source map, its interner, and the caches this pass has grown so far.
/// Every cache is a field of this explicit context, never shared global
/// state, so concurrent or sequential passes cannot observe each other.
pub struct MarkerConversionContext {
    /// The byte sizes the host reports for its representations.
    pub layout: HostLayout,
    /// The host's source map for this session.
    pub files: Vec<HostFile>,
    /// The host interner's symbol texts, indexed by symbol id.
    pub symbols: Vec<String>,
    /// Symbols interned for numeric literals, cached per number.
    pub num_symbols: HashMap<u32, u32>,
    /// Span sources interned so far: one canonical path per distinct file.
    pub span_srcs: Vec<String>,
}

impl MarkerConversionContext {
    /// Every cached numeric symbol points into the symbol table at its own
    /// decimal text, and every span source is interned at most once.
    pub open spec fn wf(self) -> bool {
        &&& forall|n: u32|
            self.num_symbols@.contains_key(n) ==> {
                &&& (#[trigger] self.num_symbols@[n] as int) < self.symbols@.len()
                &&& self.symbols@[self.num_symbols@[n] as int]@ == spec_decimal(n as nat)
            }
        &&& forall|i: int, j: int|
            0 <= i < j < self.span_srcs@.len() ==> #[trigger] self.span_srcs_view()[i]
                != #[trigger] self.span_srcs_view()[j]
    }

    /// A fresh context for one pass over the given frozen host state.
    pub fn new(layout: HostLayout, files: Vec<HostFile>, symbols: Vec<String>) -> (r: Self)
        ensures
            r.layout == layout,
            r.files == files,
            r.symbols == symbols,
            r.num_symbols@ == Map::<u32, u32>::empty(),
            r.span_srcs@.len() == 0,
            r.wf(),
    {
        MarkerConversionContext {
            layout,
            files,
            symbols,
            num_symbols: HashMap::new(),
            span_srcs: Vec::new(),
        }
    }

    /// Bridges a host crate number into a portable crate id.
    pub fn to_create_id(&self, raw: u32) -> (r: Result<CrateId, ConvError>)
        ensures
            r == spec_crate_id(self.layout, raw),
    {
        if self.layout.crate_num_bytes == CRATE_ID_BYTES {
            Ok(CrateId { index: raw })
        } else {
            Err(ConvError::LayoutMismatch {
                kind: IdKind::Crate,
                host_bytes: self.layout.crate_num_bytes,
                portable_bytes: CRATE_ID_BYTES,
            })
        }
    }

    /// Bridges a host span into a portable span id.
    pub fn to_span_id(&self, span: HostSpan) -> (r: Result<SpanId, ConvError>)
        ensures
            r == spec_span_id(self.layout, span),
    {
        if self.layout.span_bytes == SPAN_ID_BYTES {
            Ok(SpanId { lo: span.lo, hi: span.hi })
        } else {
            Err(ConvError::LayoutMismatch {
                kind: IdKind::Span,
                host_bytes: self.layout.span_bytes,
                portable_bytes: SPAN_ID_BYTES,
            })
        }
    }

    /// Bridges a host symbol into a portable symbol id.
    pub fn to_symbol_id(&self, raw: u32) -> (r: Result<SymbolId, ConvError>)
        ensures
            r == spec_symbol_id(self.layout, raw),
    {
        if self.layout.symbol_bytes == SYMBOL_ID_BYTES {
            Ok(SymbolId { index: raw })
        } else {
            Err(ConvError::LayoutMismatch {
                kind: IdKind::Symbol,
                host_bytes: self.layout.symbol_bytes,
                portable_bytes: SYMBOL_ID_BYTES,
            })
        }
    }

    /// Bridges a host definition id into a portable generic id.
    pub fn to_generic_id(&self, id: HostDefId) -> (r: Result<GenericId, ConvError>)
        ensures
            r == spec_generic_id(self.layout, id),
    {
        if self.layout.def_id_bytes == GENERIC_ID_BYTES {
            Ok(GenericId { krate: id.krate, index: id.index })
        } else {
            Err(ConvError::LayoutMismatch {
                kind: IdKind::Generic,
                host_bytes: self.layout.def_id_bytes,
                portable_bytes: GENERIC_ID_BYTES,
            })
        }
    }

    /// Bridges a host definition id into a portable type-definition id.
    pub fn to_ty_def_id(&self, id: HostDefId) -> (r: Result<TyDefId, ConvError>)
        ensures
            r == spec_ty_def_id(self.layout, id),
    {
        if self.layout.def_id_bytes == TY_DEF_ID_BYTES {
            Ok(TyDefId { krate: id.krate, index: id.index })
        } else {
            Err(ConvError::LayoutMismatch {
                kind: IdKind::TyDef,
                host_bytes: self.layout.def_id_bytes,
                portable_bytes: TY_DEF_ID_BYTES,
            })
        }
    }

    /// Bridges a host definition id into a portable item id.
    pub fn to_item_id(&self, id: HostDefId) -> (r: Result<ItemId, ConvError>)
        ensures
            r == spec_item_id(self.layout, id),
    {
        if self.layout.def_id_bytes == ITEM_ID_BYTES {
            Ok(ItemId { krate: id.krate, index: id.index })
        } else {
            Err(ConvError::LayoutMismatch {
                kind: IdKind::Item,
                host_bytes: self.layout.def_id_bytes,
                portable_bytes: ITEM_ID_BYTES,
            })
        }
    }

    /// Bridges a host body id into a portable body id.
    pub fn to_body_id(&self, id: HostBodyId) -> (r: Result<BodyId, ConvError>)
        ensures
            r == spec_body_id(self.layout, id),
    {
        if self.layout.body_id_bytes == BODY_ID_BYTES {
            Ok(BodyId { owner: id.hir_id.owner, index: id.hir_id.index })
        } else {
            Err(ConvError::LayoutMismatch {
                kind: IdKind::Body,
                host_bytes: self.layout.body_id_bytes,
                portable_bytes: BODY_ID_BYTES,
            })
        }
    }

    /// Bridges a host node id into a portable variable id.
    pub fn to_var_id(&self, id: HostHirId) -> (r: Result<VarId, ConvError>)
        ensures
            r == spec_var_id(self.layout, id),
    {
        if self.layout.hir_id_bytes == VAR_ID_BYTES {
            Ok(VarId { owner: id.owner, index: id.index })
        } else {
            Err(ConvError::LayoutMismatch {
                kind: IdKind::Var,
                host_bytes: self.layout.hir_id_bytes,
                portable_bytes: VAR_ID_BYTES,
            })
        }
    }

    /// Bridges a host identifier: its symbol and the span it occupies.
    pub fn to_ident(&self, ident: HostIdent) -> (r: Result<Ident, ConvError>)
        ensures
            r == spec_ident(self.layout, ident),
    {
        let name = match self.to_symbol_id(ident.name) {
            Ok(name) => name,
            Err(e) => {
                return Err(e);
            },
        };
        let span = match self.to_span_id(ident.span) {
            Ok(span) => span,
            Err(e) => {
                return Err(e);
            },
        };
        Ok(Ident::new(name, span))
    }

    /// Maps a host calling convention onto the portable set.
    pub fn to_abi(&self, abi: HostAbi) -> (r: Abi)
        ensures
            r == spec_abi(abi),
    {
        match abi {
            HostAbi::Rust => Abi::Default,
            HostAbi::C => Abi::C,
            HostAbi::Other => Abi::Other,
        }
    }

    /// Maps a host lifetime onto the portable set; anonymous lifetimes have
    /// no portable representation and yield `None`.
    pub fn to_lifetime(&self, lt: HostLifetime) -> (r: Option<Lifetime>)
        ensures
            r == spec_lifetime(lt),
    {
        match lt {
            HostLifetime::Named(raw) => Some(Lifetime { label: Some(SymbolId { index: raw }) }),
            HostLifetime::Static => Some(Lifetime { label: None }),
            HostLifetime::Anonymous => None,
        }
    }

    /// Converts a host path, segment by segment in source order.
    pub fn to_path(&self, path: &HostPath) -> (r: Result<AstPath, ConvError>)
        ensures
            match r {
                Ok(p) => spec_path_segments(self.layout, path.segments@) == Ok::<_, ConvError>(
                    p.segments@,
                ),
                Err(e) => spec_path_segments(self.layout, path.segments@) == Err::<
                    Seq<AstPathSegment>,
                    _,
                >(e),
            },
    {
        let n = path.segments.len();
        let mut segments: Vec<AstPathSegment> = Vec::new();
        let mut i: usize = 0;
        proof {
            assert(path.segments@.skip(0) =~= path.segments@);
        }
        while i < n
            invariant
                n == path.segments@.len(),
                0 <= i <= n,
                segments@.len() == i,
                spec_path_segments(self.layout, path.segments@) == spec_combine_segments(
                    segments@,
                    spec_path_segments(self.layout, path.segments@.skip(i as int)),
                ),
            decreases n - i,
        {
            proof {
                assert(path.segments@.skip(i as int)[0] == path.segments@[i as int]);
                assert(path.segments@.skip(i as int).drop_first() =~= path.segments@.skip(
                    i as int + 1,
                ));
            }
            let seg = path.segments[i];
            match self.to_symbol_id(seg.ident.name) {
                Ok(name) => {
                    proof {
                        let done = segments@;
                        let rst = spec_path_segments(
                            self.layout,
                            path.segments@.skip(i as int + 1),
                        );
                        if rst is Ok {
                            assert(done + (seq![AstPathSegment { name }] + rst->Ok_0) =~= done.push(
                                AstPathSegment { name },
                            ) + rst->Ok_0);
                        }
                    }
                    segments.push(AstPathSegment { name });
                },
                Err(e) => {
                    return Err(e);
                },
            }
            i += 1;
        }
        proof {
            assert(path.segments@.skip(n as int).len() == 0);
            assert(segments@ + Seq::<AstPathSegment>::empty() =~= segments@);
        }
        Ok(AstPath::new(segments))
    }

    /// Converts a host qualified path.  Only plainly resolved paths are
    /// representable; the other shapes stop the pass.
    pub fn to_path_from_qpath(&self, qpath: &HostQPath) -> (r: Result<AstPath, ConvError>)
        ensures
            match *qpath {
                HostQPath::Resolved(path) => match r {
                    Ok(p) => spec_path_segments(self.layout, path.segments@) == Ok::<
                        _,
                        ConvError,
                    >(p.segments@),
                    Err(e) => spec_path_segments(self.layout, path.segments@) == Err::<
                        Seq<AstPathSegment>,
                        _,
                    >(e),
                },
                HostQPath::ResolvedWithSelfTy(_) => r == Err::<AstPath, _>(
                    ConvError::NotYetImplemented { kind: UnsupportedKind::QPathWithSelfTy },
                ),
                HostQPath::TypeRelative => r == Err::<AstPath, _>(ConvError::NotYetImplemented {
                    kind: UnsupportedKind::QPathTypeRelative,
                }),
                HostQPath::LangItem => r == Err::<AstPath, _>(ConvError::NotYetImplemented {
                    kind: UnsupportedKind::QPathLangItem,
                }),
            },
    {
        match qpath {
            HostQPath::Resolved(path) => self.to_path(path),
            HostQPath::ResolvedWithSelfTy(_) => Err(ConvError::NotYetImplemented {
                kind: UnsupportedKind::QPathWithSelfTy,
            }),
            HostQPath::TypeRelative => Err(ConvError::NotYetImplemented {
                kind: UnsupportedKind::QPathTypeRelative,
            }),
            HostQPath::LangItem => Err(ConvError::NotYetImplemented {
                kind: UnsupportedKind::QPathLangItem,
            }),
        }
    }

    /// Converts a host trait reference into a portable one.
    pub fn to_trait_ref(&self, tr: &HostTraitRef) -> (r: Result<TraitRef, ConvError>)
        requires
            tr.path.res is Trait || tr.path.res is TraitAlias,
        ensures
            r == spec_trait_ref(self.layout, *tr),
    {
        let def_id = match tr.path.res {
            HostRes::Trait(def_id) => def_id,
            HostRes::TraitAlias(def_id) => def_id,
            HostRes::Other => unreached(),
        };
        match self.to_item_id(def_id) {
            Ok(id) => Ok(TraitRef::new(id)),
            Err(e) => Err(e),
        }
    }

    /// Converts a host syntactic type into a portable type node.
    pub fn to_syn_ty(&self, ty: &HostTy) -> (r: Result<SynTyKind, ConvError>)
        ensures
            r == spec_conv_ty(self.layout, *ty),
    {
        match self.to_span_id(ty.span) {
            Ok(span) => Ok(SynTyKind { span }),
            Err(e) => Err(e),
        }
    }
}

/// The host definition id a portable item id was built from.
pub fn host_def_id_of_item_id(id: ItemId) -> (r: HostDefId)
    ensures
        r == (HostDefId { krate: id.krate, index: id.index }),
{
    HostDefId { krate: id.krate, index: id.index }
}

/// The host definition id a portable generic id was built from.
pub fn host_def_id_of_generic_id(id: GenericId) -> (r: HostDefId)
    ensures
        r == (HostDefId { krate: id.krate, index: id.index }),
{
    HostDefId { krate: id.krate, index: id.index }
}

/// The host definition id a portable type-definition id was built from.
pub fn host_def_id_of_ty_def_id(id: TyDefId) -> (r: HostDefId)
    ensures
        r == (HostDefId { krate: id.krate, index: id.index }),
{
    HostDefId { krate: id.krate, index: id.index }
}

/// The host span a portable span id was built from.
pub fn host_span_of_span_id(id: SpanId) -> (r: HostSpan)
    ensures
        r == (HostSpan { lo: id.lo, hi: id.hi }),
{
    HostSpan { lo: id.lo, hi: id.hi }
}

/// The host body id a portable body id was built from.
pub fn host_body_id_of_body_id(id: BodyId) -> (r: HostBodyId)
    ensures
        r == (HostBodyId { hir_id: HostHirId { owner: id.owner, index: id.index } }),
{
    HostBodyId { hir_id: HostHirId { owner: id.owner, index: id.index } }
}

/// The host node id a portable variable id was built from.
pub fn host_hir_id_of_var_id(id: VarId) -> (r: HostHirId)
    ensures
        r == (HostHirId { owner: id.owner, index: id.index }),
{
    HostHirId { owner: id.owner, index: id.index }
}

/// The host crate number a portable crate id was built from.
pub fn host_crate_num_of_crate_id(id: CrateId) -> (r: u32)
    ensures
        r == id.index,
{
    id.index
}

/// The host symbol a portable symbol id was built from.
pub fn host_symbol_of_symbol_id(id: SymbolId) -> (r: u32)
    ensures
        r == id.index,
{
    id.index
}

/// Converting a host identifier and mapping the portable id back recovers
/// the original host identity, for every portable id kind with a reverse
/// mapping.
pub proof fn lemma_ids_recover_host_identity(
    layout: HostLayout,
    d: HostDefId,
    b: HostBodyId,
    h: HostHirId,
    s: HostSpan,
    raw_crate: u32,
    raw_sym: u32,
)
    ensures
        spec_item_id(layout, d) matches Ok(i) ==> (HostDefId { krate: i.krate, index: i.index })
            == d,
        spec_generic_id(layout, d) matches Ok(g) ==> (HostDefId { krate: g.krate, index: g.index })
            == d,
        spec_ty_def_id(layout, d) matches Ok(t) ==> (HostDefId { krate: t.krate, index: t.index })
            == d,
        spec_body_id(layout, b) matches Ok(x) ==> (HostBodyId {
            hir_id: HostHirId { owner: x.owner, index: x.index },
        }) == b,
        spec_var_id(layout, h) matches Ok(v) ==> (HostHirId { owner: v.owner, index: v.index })
            == h,
        spec_span_id(layout, s) matches Ok(sp) ==> (HostSpan { lo: sp.lo, hi: sp.hi }) == s,
        spec_crate_id(layout, raw_crate) matches Ok(c) ==> c.index == raw_crate,
        spec_symbol_id(layout, raw_sym) matches Ok(sy) ==> sy.index == raw_sym,
{
}

/// Under a mismatched byte size, every bridging conversion aborts with a
/// layout mismatch carrying both sizes, and never produces a value.
pub proof fn lemma_layout_mismatch_aborts(
    layout: HostLayout,
    d: HostDefId,
    b: HostBodyId,
    h: HostHirId,
    s: HostSpan,
    raw_crate: u32,
    raw_sym: u32,
)
    ensures
        layout.def_id_bytes != ITEM_ID_BYTES ==> spec_item_id(layout, d) == Err::<
            ItemId,
            _,
        >(ConvError::LayoutMismatch {
            kind: IdKind::Item,
            host_bytes: layout.def_id_bytes,
            portable_bytes: ITEM_ID_BYTES,
        }),
        layout.body_id_bytes != BODY_ID_BYTES ==> spec_body_id(layout, b) == Err::<
            BodyId,
            _,
        >(ConvError::LayoutMismatch {
            kind: IdKind::Body,
            host_bytes: layout.body_id_bytes,
            portable_bytes: BODY_ID_BYTES,
        }),
        layout.hir_id_bytes != VAR_ID_BYTES ==> spec_var_id(layout, h) == Err::<
            VarId,
            _,
        >(ConvError::LayoutMismatch {
            kind: IdKind::Var,
            host_bytes: layout.hir_id_bytes,
            portable_bytes: VAR_ID_BYTES,
        }),
        layout.span_bytes != SPAN_ID_BYTES ==> spec_span_id(layout, s) == Err::<
            SpanId,
            _,
        >(ConvError::LayoutMismatch {
            kind: IdKind::Span,
            host_bytes: layout.span_bytes,
            portable_bytes: SPAN_ID_BYTES,
        }),
        layout.crate_num_bytes != CRATE_ID_BYTES ==> spec_crate_id(layout, raw_crate) == Err::<
            CrateId,
            _,
        >(ConvError::LayoutMismatch {
            kind: IdKind::Crate,
            host_bytes: layout.crate_num_bytes,
            portable_bytes: CRATE_ID_BYTES,
        }),
        layout.symbol_bytes != SYMBOL_ID_BYTES ==> spec_symbol_id(layout, raw_sym) == Err::<
            SymbolId,
            _,
        >(ConvError::LayoutMismatch {
            kind: IdKind::Symbol,
            host_bytes: layout.symbol_bytes,
            portable_bytes: SYMBOL_ID_BYTES,
        }),
{
}

/// The first index at which a sequence of texts holds the given text.
pub open spec fn str_index_of(texts: Seq<Seq<char>>, t: Seq<char>) -> Option<int>
    decreases texts.len(),
{
    if texts.len() == 0 {
        None
    } else if texts[0] == t {
        Some(0)
    } else {
        match str_index_of(texts.drop_first(), t) {
            Some(k) => Some(k + 1),
            None => None,
        }
    }
}

proof fn lemma_str_index_of_skip(texts: Seq<Seq<char>>, t: Seq<char>, k: int)
    requires
        0 <= k <= texts.len(),
        forall|j: int| 0 <= j < k ==> #[trigger] texts[j] != t,
    ensures
        match str_index_of(texts.skip(k), t) {
            Some(m) => str_index_of(texts, t) == Some(m + k),
            None => str_index_of(texts, t) is None,
        },
    decreases k,
{
    if k > 0 {
        assert(texts.skip(k - 1).drop_first() =~= texts.skip(k));
        lemma_str_index_of_skip(texts, t, k - 1);
        assert(texts.skip(k - 1)[0] == texts[k - 1]);
    } else {
        assert(texts.skip(0) =~= texts);
    }
}

/// The first source-map entry whose byte range contains the given offset.
pub open spec fn spec_file_of(files: Seq<HostFile>, lo: u32) -> Option<int>
    decreases files.len(),
{
    if files.len() == 0 {
        None
    } else if files[0].start_pos <= lo < files[0].start_pos + files[0].size {
        Some(0)
    } else {
        match spec_file_of(files.drop_first(), lo) {
            Some(k) => Some(k + 1),
            None => None,
        }
    }
}

proof fn lemma_spec_file_of_skip(files: Seq<HostFile>, lo: u32, k: int)
    requires
        0 <= k <= files.len(),
        forall|j: int|
            0 <= j < k ==> !((#[trigger] files[j]).start_pos <= lo < files[j].start_pos
                + files[j].size),
    ensures
        match spec_file_of(files.skip(k), lo) {
            Some(m) => spec_file_of(files, lo) == Some(m + k),
            None => spec_file_of(files, lo) is None,
        },
    decreases k,
{
    if k > 0 {
        assert(files.skip(k - 1).drop_first() =~= files.skip(k));
        lemma_spec_file_of_skip(files, lo, k - 1);
        assert(files.skip(k - 1)[0] == files[k - 1]);
    } else {
        assert(files.skip(0) =~= files);
    }
}

/// The entry `spec_file_of` finds really contains the offset.
pub proof fn lemma_spec_file_of_props(files: Seq<HostFile>, lo: u32)
    ensures
        match spec_file_of(files, lo) {
            Some(k) => 0 <= k < files.len() && files[k].start_pos <= lo < files[k].start_pos
                + files[k].size,
            None => true,
        },
    decreases files.len(),
{
    if files.len() > 0 {
        lemma_spec_file_of_props(files.drop_first(), lo);
    }
}

impl MarkerConversionContext {
    /// The views of the interned span sources.
    pub open spec fn span_srcs_view(self) -> Seq<Seq<char>> {
        self.span_srcs@.map_values(|s: String| s@)
    }

    /// Interns a span source path, once per distinct path: a path already
    /// interned keeps its index, a new one is appended.
    fn intern_src(&mut self, path: &String) -> (idx: usize)
        requires
            old(self).wf(),
            old(self).span_srcs@.len() < 0xffff_ffff,
        ensures
            final(self).wf(),
            final(self).layout == old(self).layout,
            final(self).files == old(self).files,
            final(self).symbols == old(self).symbols,
            final(self).num_symbols == old(self).num_symbols,
            (idx as int) < final(self).span_srcs@.len(),
            final(self).span_srcs_view()[idx as int] == path@,
            final(self).span_srcs@.len() <= old(self).span_srcs@.len() + 1,
            forall|j: int|
                0 <= j < old(self).span_srcs@.len() ==> #[trigger] final(self).span_srcs@[j]
                    == old(self).span_srcs@[j],
            match str_index_of(old(self).span_srcs_view(), path@) {
                Some(k) => idx == k && final(self).span_srcs == old(self).span_srcs,
                None => idx == old(self).span_srcs@.len() && final(self).span_srcs@ == old(
                    self,
                ).span_srcs@.push(*path),
            },
    {
        let n = self.span_srcs.len();
        let mut i: usize = 0;
        while i < n
            invariant
                self == old(self),
                old(self).wf(),
                old(self).span_srcs@.len() < 0xffff_ffff,
                n == self.span_srcs@.len(),
                0 <= i <= n,
                forall|j: int| 0 <= j < i ==> #[trigger] self.span_srcs_view()[j] != path@,
            decreases n - i,
        {
            assert(self.span_srcs_view()[i as int] == self.span_srcs@[i as int]@);
            if self.span_srcs[i].eq(path) {
                proof {
                    lemma_str_index_of_skip(self.span_srcs_view(), path@, i as int);
                    assert(self.span_srcs_view().skip(i as int)[0] == self.span_srcs_view()[
                        i as int]);
                }
                return i;
            }
            i += 1;
        }
        proof {
            lemma_str_index_of_skip(self.span_srcs_view(), path@, n as int);
            assert(self.span_srcs_view().skip(n as int).len() == 0);
        }
        self.span_srcs.push(path.clone());
        proof {
            let oldv = old(self).span_srcs_view();
            let newv = self.span_srcs_view();
            assert(newv =~= oldv.push(path@));
            assert forall|a: int, b: int| 0 <= a < b < newv.len() implies newv[a] != newv[b] by {
                if b < oldv.len() {
                    assert(oldv[a] != oldv[b]);
                } else {
                    assert(newv[a] == oldv[a]);
                    assert(newv[b] == path@);
                    assert(oldv[a] != path@);
                }
            };
        }
        n
    }

    /// Locates the source-map entry containing an absolute offset, and
    /// interns its path as this pass's span source.  Returns the interned
    /// source index and the entry's start offset.
    fn to_span_info(&mut self, span: HostSpan) -> (r: Result<(usize, u32), ConvError>)
        requires
            old(self).wf(),
            old(self).span_srcs@.len() < 0xffff_ffff,
            spec_file_of(old(self).files@, span.lo) is Some,
        ensures
            final(self).wf(),
            final(self).layout == old(self).layout,
            final(self).files == old(self).files,
            final(self).symbols == old(self).symbols,
            final(self).num_symbols == old(self).num_symbols,
            final(self).span_srcs@.len() <= old(self).span_srcs@.len() + 1,
            forall|j: int|
                0 <= j < old(self).span_srcs@.len() ==> #[trigger] final(self).span_srcs@[j]
                    == old(self).span_srcs@[j],
            ({
                let f = old(self).files@[spec_file_of(old(self).files@, span.lo)->Some_0];
                match f.name {
                    HostFileName::Real(path) => match r {
                        Ok((src, off)) => {
                            &&& off == f.start_pos
                            &&& (src as int) < final(self).span_srcs@.len()
                            &&& final(self).span_srcs_view()[src as int] == path@
                        },
                        Err(_) => false,
                    },
                    HostFileName::MacroExpansion => r == Err::<(usize, u32), _>(
                        ConvError::NotYetImplemented { kind: UnsupportedKind::MacroExpansionSpan },
                    ) && final(self).span_srcs == old(self).span_srcs,
                    HostFileName::ProcMacroSourceCode => r == Err::<(usize, u32), _>(
                        ConvError::NotYetImplemented { kind: UnsupportedKind::ProcMacroSpan },
                    ) && final(self).span_srcs == old(self).span_srcs,
                }
            }),
    {
        let n = self.files.len();
        let mut i: usize = 0;
        while i < n
            invariant
                self == old(self),
                old(self).wf(),
                old(self).span_srcs@.len() < 0xffff_ffff,
                n == self.files@.len(),
                0 <= i <= n,
                forall|j: int|
                    0 <= j < i ==> !((#[trigger] self.files@[j]).start_pos <= span.lo
                        < self.files@[j].start_pos + self.files@[j].size),
                spec_file_of(self.files@, span.lo) is Some,
            decreases n - i,
        {
            let in_range = {
                let f = &self.files[i];
                f.start_pos <= span.lo && (span.lo as u64) < (f.start_pos as u64) + (f.size as u64)
            };
            if in_range {
                proof {
                    lemma_spec_file_of_skip(self.files@, span.lo, i as int);
                    assert(self.files@.skip(i as int)[0] == self.files@[i as int]);
                }
                let start = self.files[i].start_pos;
                let name_path: Option<String> = match &self.files[i].name {
                    HostFileName::Real(path) => Some(path.clone()),
                    HostFileName::MacroExpansion => {
                        return Err(ConvError::NotYetImplemented {
                            kind: UnsupportedKind::MacroExpansionSpan,
                        });
                    },
                    HostFileName::ProcMacroSourceCode => {
                        return Err(ConvError::NotYetImplemented {
                            kind: UnsupportedKind::ProcMacroSpan,
                        });
                    },
                };
                let path = match name_path {
                    Some(p) => p,
                    None => unreached(),
                };
                let src = self.intern_src(&path);
                return Ok((src, start));
            }
            i += 1;
        }
        proof {
            lemma_spec_file_of_skip(self.files@, span.lo, n as int);
            assert(self.files@.skip(n as int).len() == 0);
        }
        unreached()
    }

    /// Converts a host span into a portable span: its origin becomes an
    /// interned span source, its offsets become relative to that origin.
    pub fn to_span(&mut self, span: HostSpan) -> (r: Result<Span, ConvError>)
        requires
            old(self).wf(),
            old(self).span_srcs@.len() < 0xffff_ffff,
            spec_file_of(old(self).files@, span.lo) is Some,
            span.lo <= span.hi,
            ({
                let f = old(self).files@[spec_file_of(old(self).files@, span.lo)->Some_0];
                span.hi <= f.start_pos + f.size
            }),
        ensures
            final(self).wf(),
            final(self).layout == old(self).layout,
            final(self).files == old(self).files,
            final(self).symbols == old(self).symbols,
            final(self).num_symbols == old(self).num_symbols,
            final(self).span_srcs@.len() <= old(self).span_srcs@.len() + 1,
            forall|j: int|
                0 <= j < old(self).span_srcs@.len() ==> #[trigger] final(self).span_srcs@[j]
                    == old(self).span_srcs@[j],
            ({
                let f = old(self).files@[spec_file_of(old(self).files@, span.lo)->Some_0];
                match f.name {
                    HostFileName::Real(path) => match r {
                        Ok(sp) => {
                            &&& sp.start == span.lo - f.start_pos
                            &&& sp.end == span.hi - f.start_pos
                            &&& (sp.source->File_0 as int) < final(self).span_srcs@.len()
                            &&& final(self).span_srcs_view()[sp.source->File_0 as int] == path@
                        },
                        Err(_) => false,
                    },
                    HostFileName::MacroExpansion => r == Err::<Span, _>(
                        ConvError::NotYetImplemented { kind: UnsupportedKind::MacroExpansionSpan },
                    ),
                    HostFileName::ProcMacroSourceCode => r == Err::<Span, _>(
                        ConvError::NotYetImplemented { kind: UnsupportedKind::ProcMacroSpan },
                    ),
                }
            }),
    {
        proof {
            lemma_spec_file_of_props(self.files@, span.lo);
        }
        let (src, off) = match self.to_span_info(span) {
            Ok(pair) => pair,
            Err(e) => {
                return Err(e);
            },
        };
        let start = (span.lo - off) as usize;
        let end = (span.hi - off) as usize;
        Ok(Span::new(SpanSource::File(src as u32), start, end))
    }
}

/// Growing the symbol table (and touching nothing else) keeps every cached
/// numeric symbol valid.
proof fn lemma_num_symbols_wf_stable(pre: MarkerConversionContext, post: MarkerConversionContext)
    requires
        pre.wf(),
        post.num_symbols == pre.num_symbols,
        post.span_srcs == pre.span_srcs,
        post.symbols@.len() >= pre.symbols@.len(),
        forall|j: int|
            0 <= j < pre.symbols@.len() ==> #[trigger] post.symbols@[j] == pre.symbols@[j],
    ensures
        post.wf(),
{
    assert forall|n: u32| post.num_symbols@.contains_key(n) implies {
        &&& (#[trigger] post.num_symbols@[n] as int) < post.symbols@.len()
        &&& post.symbols@[post.num_symbols@[n] as int]@ == spec_decimal(n as nat)
    } by {
        assert(pre.num_symbols@.contains_key(n));
        assert(post.num_symbols@[n] == pre.num_symbols@[n]);
        assert((pre.num_symbols@[n] as int) < pre.symbols@.len());
        assert(post.symbols@[pre.num_symbols@[n] as int] == pre.symbols@[pre.num_symbols@[
            n] as int]);
    };
    assert(post.span_srcs_view() =~= pre.span_srcs_view());
}

/// The decimal text of a number, most significant digit first.
pub open spec fn spec_decimal(n: nat) -> Seq<char>
    decreases n,
{
    if n < 10 {
        seq![spec_digit_char(n)]
    } else {
        spec_decimal(n / 10).push(spec_digit_char(n % 10))
    }
}

/// The character for one decimal digit.
pub open spec fn spec_digit_char(d: nat) -> char
    recommends
        d < 10,
{
    if d == 0 {
        '0'
    } else if d == 1 {
        '1'
    } else if d == 2 {
        '2'
    } else if d == 3 {
        '3'
    } else if d == 4 {
        '4'
    } else if d == 5 {
        '5'
    } else if d == 6 {
        '6'
    } else if d == 7 {
        '7'
    } else if d == 8 {
        '8'
    } else {
        '9'
    }
}

/// The text for one decimal digit.
fn digit_str(d: u32) -> (r: &'static str)
    requires
        d < 10,
    ensures
        r@ == seq![spec_digit_char(d as nat)],
{
    proof {
        reveal_strlit("0");
        reveal_strlit("1");
        reveal_strlit("2");
        reveal_strlit("3");
        reveal_strlit("4");
        reveal_strlit("5");
        reveal_strlit("6");
        reveal_strlit("7");
        reveal_strlit("8");
        reveal_strlit("9");
    }
    let r: &'static str = match d {
        0 => "0",
        1 => "1",
        2 => "2",
        3 => "3",
        4 => "4",
        5 => "5",
        6 => "6",
        7 => "7",
        8 => "8",
        _ => "9",
    };
    proof {
        assert(r@ =~= seq![spec_digit_char(d as nat)]);
    }
    r
}

/// Renders a number as decimal text.
pub fn u32_decimal(n: u32) -> (s: String)
    ensures
        s@ == spec_decimal(n as nat),
    decreases n,
{
    if n < 10 {
        digit_str(n).to_owned()
    } else {
        let mut s = u32_decimal(n / 10);
        s.append(digit_str(n % 10));
        proof {
            assert(spec_decimal((n / 10) as nat) + seq![spec_digit_char((n % 10) as nat)]
                =~= spec_decimal((n / 10) as nat).push(spec_digit_char((n % 10) as nat)));
        }
        s
    }
}

impl MarkerConversionContext {
    /// The symbol for a numeric literal: cached per number, interned into
    /// the session's symbol table the first time the number is met.
    pub fn to_symbol_id_for_num(&mut self, num: u32) -> (r: Result<SymbolId, ConvError>)
        requires
            old(self).wf(),
            old(self).symbols@.len() < 0xffff_ffff,
        ensures
            final(self).wf(),
            final(self).layout == old(self).layout,
            final(self).files == old(self).files,
            final(self).span_srcs == old(self).span_srcs,
            final(self).symbols@.len() <= old(self).symbols@.len() + 1,
            forall|j: int|
                0 <= j < old(self).symbols@.len() ==> #[trigger] final(self).symbols@[j] == old(
                    self,
                ).symbols@[j],
            old(self).num_symbols@.contains_key(num) ==> r == Ok::<_, ConvError>(SymbolId {
                index: old(self).num_symbols@[num],
            }) && *final(self) == *old(self),
            !old(self).num_symbols@.contains_key(num) && old(self).layout.symbol_bytes
                != SYMBOL_ID_BYTES ==> r == Err::<SymbolId, _>(ConvError::LayoutMismatch {
                kind: IdKind::Symbol,
                host_bytes: old(self).layout.symbol_bytes,
                portable_bytes: SYMBOL_ID_BYTES,
            }) && *final(self) == *old(self),
            !old(self).num_symbols@.contains_key(num) && old(self).layout.symbol_bytes
                == SYMBOL_ID_BYTES ==> match r {
                Ok(sym) => {
                    &&& (sym.index as int) < final(self).symbols@.len()
                    &&& final(self).symbols@[sym.index as int]@ == spec_decimal(num as nat)
                    &&& final(self).num_symbols@ == old(self).num_symbols@.insert(num, sym.index)
                },
                Err(_) => false,
            },
    {
        let cached = match self.num_symbols.get(&num) {
            Some(idx) => Some(*idx),
            None => None,
        };
        match cached {
            Some(idx) => Ok(SymbolId { index: idx }),
            None => {
                if self.layout.symbol_bytes != SYMBOL_ID_BYTES {
                    return Err(ConvError::LayoutMismatch {
                        kind: IdKind::Symbol,
                        host_bytes: self.layout.symbol_bytes,
                        portable_bytes: SYMBOL_ID_BYTES,
                    });
                }
                let text = u32_decimal(num);
                let idx = self.intern_symbol(text);
                let ghost mid = *self;
                self.num_symbols.insert(num, idx);
                proof {
                    assert forall|n2: u32| self.num_symbols@.contains_key(n2) implies {
                        &&& (#[trigger] self.num_symbols@[n2] as int) < self.symbols@.len()
                        &&& self.symbols@[self.num_symbols@[n2] as int]@ == spec_decimal(n2 as nat)
                    } by {
                        if n2 != num {
                            assert(mid.num_symbols@.contains_key(n2));
                            assert(self.num_symbols@[n2] == mid.num_symbols@[n2]);
                        }
                    };
                    assert(self.span_srcs_view() =~= mid.span_srcs_view());
                }
                Ok(SymbolId { index: idx })
            },
        }
    }

    /// Interns a symbol text into the session's symbol table, reusing an
    /// existing entry when one holds the same text.
    fn intern_symbol(&mut self, text: String) -> (idx: u32)
        requires
            old(self).wf(),
            old(self).symbols@.len() < 0xffff_ffff,
        ensures
            final(self).wf(),
            final(self).layout == old(self).layout,
            final(self).files == old(self).files,
            final(self).num_symbols == old(self).num_symbols,
            final(self).span_srcs == old(self).span_srcs,
            final(self).symbols@.len() <= old(self).symbols@.len() + 1,
            forall|j: int|
                0 <= j < old(self).symbols@.len() ==> #[trigger] final(self).symbols@[j] == old(
                    self,
                ).symbols@[j],
            (idx as int) < final(self).symbols@.len(),
            final(self).symbols@[idx as int]@ == text@,
    {
        let n = self.symbols.len();
        let mut i: usize = 0;
        while i < n
            invariant
                self == old(self),
                old(self).wf(),
                old(self).symbols@.len() < 0xffff_ffff,
                n == self.symbols@.len(),
                0 <= i <= n,
            decreases n - i,
        {
            if self.symbols[i].eq(&text) {
                return i as u32;
            }
            i += 1;
        }
        self.symbols.push(text);
        proof {
            lemma_num_symbols_wf_stable(*old(self), *self);
        }
        n as u32
    }
}

} // verus!

