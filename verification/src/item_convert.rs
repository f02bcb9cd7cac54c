//! The lazy, identity-preserving item conversion engine.
//!
//! On request for a host item the engine first consults the pass cache:
//! repeated requests for the same host identity return the identical arena
//! node.  On a miss it converts the minimal set of child nodes, appends the
//! new node to the pass arena — existing nodes are never moved or changed,
//! so node references stay valid for the whole pass — and caches it.  The
//! cache is filled after a node's children are fully converted, so a node
//! becomes visible to re-entrant requests only once it is complete.
//!
//! Recoverably-unsupported nodes are absent from their container's output;
//! nodes with no representation at all stop the pass with a loudly reported
//! failure instead of producing an incomplete tree.

use vstd::prelude::*;
use std::collections::HashMap;
use crate::ast::{CommonItemData, Item, ItemVariant, Mutability, UseKind};
use crate::convert::{spec_body_id, spec_conv_ty, spec_trait_ref, MarkerConversionContext};
use crate::errors::{ConvError, IdKind, UnsupportedKind};
use crate::generics_convert::{
    preds_res_wf, spec_clauses_match, spec_clauses_res, spec_conv_params, spec_sig_params,
};
use crate::host::{
    host_item_children_wf, HostDefId, HostFnSig, HostGenerics, HostImplItemKind, HostItemKind,
    HostUnit, HostUseKind,
};
use crate::ids::{spec_encode_pair, ItemId, SymbolId};

verus! {

broadcast use vstd::std_specs::hash::group_hash_axioms;

/// Whether a host item kind is recoverably unsupported: such an item is
/// omitted from its container without affecting anything else.
pub open spec fn item_skipped(kind: HostItemKind) -> bool {
    match kind {
        HostItemKind::Macro => true,
        HostItemKind::GlobalAsm => true,
        HostItemKind::Use(_, use_kind) => use_kind is ListStem,
        _ => false,
    }
}

/// The fatal stop a host item kind causes, if it has no portable
/// representation at all.
pub open spec fn item_fatal(kind: HostItemKind) -> Option<UnsupportedKind> {
    match kind {
        HostItemKind::ForeignMod => Some(UnsupportedKind::ForeignMod),
        HostItemKind::OpaqueTy => Some(UnsupportedKind::OpaqueTy),
        HostItemKind::Enum => Some(UnsupportedKind::Enum),
        HostItemKind::Struct => Some(UnsupportedKind::Struct),
        HostItemKind::Union => Some(UnsupportedKind::Union),
        HostItemKind::Trait => Some(UnsupportedKind::Trait),
        HostItemKind::TraitAlias => Some(UnsupportedKind::TraitAlias),
        _ => None,
    }
}

/// The cache key of a host definition id.
pub open spec fn key_of(d: HostDefId) -> u64 {
    spec_encode_pair(d.krate, d.index)
}

/// The portable item id a host definition id bridges to.
pub open spec fn portable_item_id(d: HostDefId) -> ItemId {
    ItemId { krate: d.krate, index: d.index }
}

/// The child indices of a module that are kept: the recoverably
/// unsupported ones are absent, the rest stay in declaration order.
pub open spec fn kept_children(unit: HostUnit, cs: Seq<usize>) -> Seq<usize>
    decreases cs.len(),
{
    if cs.len() == 0 {
        Seq::empty()
    } else {
        let rest = kept_children(unit, cs.drop_first());
        if item_skipped(unit.items@[cs[0] as int].kind) {
            rest
        } else {
            seq![cs[0]] + rest
        }
    }
}

proof fn lemma_kept_children_snoc(unit: HostUnit, cs: Seq<usize>, c: usize)
    ensures
        kept_children(unit, cs.push(c)) == if item_skipped(unit.items@[c as int].kind) {
            kept_children(unit, cs)
        } else {
            kept_children(unit, cs).push(c)
        },
    decreases cs.len(),
{
    if cs.len() == 0 {
        assert(cs.push(c)[0] == c);
        assert(cs.push(c).drop_first() =~= cs);
        if !item_skipped(unit.items@[c as int].kind) {
            assert(seq![c] + kept_children(unit, cs) =~= kept_children(unit, cs).push(c));
        }
    } else {
        assert(cs.push(c)[0] == cs[0]);
        assert(cs.push(c).drop_first() =~= cs.drop_first().push(c));
        lemma_kept_children_snoc(unit, cs.drop_first(), c);
        if !item_skipped(unit.items@[cs[0] as int].kind) {
            if !item_skipped(unit.items@[c as int].kind) {
                assert(seq![cs[0]] + kept_children(unit, cs.drop_first()).push(c) =~= (seq![cs[0]]
                    + kept_children(unit, cs.drop_first())).push(c));
            }
        }
    }
}

/// Whether an item's generics contain only constructs with a portable
/// representation.
pub open spec fn generics_ok(g: HostGenerics) -> bool {
    crate::generics_convert::preds_lang_free(g.predicates@)
}

/// Whether converting this item is owed to succeed under a matching
/// layout: no component of it lacks a portable representation, and every
/// kept module member is itself convertible.
pub open spec fn item_ok(unit: HostUnit, i: int) -> bool
    decreases i, 1int, 0int,
{
    if 0 <= i < unit.items@.len() {
        match unit.items@[i].kind {
            HostItemKind::Fn(_, g, _) => generics_ok(g),
            HostItemKind::TyAlias(_, g) => generics_ok(g),
            HostItemKind::Impl(data) => {
                &&& generics_ok(data.generics)
                &&& forall|t: int|
                    0 <= t < data.items@.len() && (#[trigger] data.items@[t] as int)
                        < unit.impl_items@.len() ==> generics_ok(
                        unit.impl_items@[data.items@[t] as int].generics,
                    )
            },
            HostItemKind::Mod(children) => mod_children_ok(unit, children@, i),
            _ => true,
        }
    } else {
        true
    }
}

/// Whether every member of a module below the given position is either
/// recoverably skipped or itself owed to convert.
pub open spec fn mod_children_ok(unit: HostUnit, cs: Seq<usize>, bound: int) -> bool
    decreases bound, 0int, cs.len(),
{
    if cs.len() == 0 {
        true
    } else {
        let c = cs[0] as int;
        &&& 0 <= c < bound
        &&& c < unit.items@.len()
        &&& (item_skipped(unit.items@[c].kind) || (item_fatal(unit.items@[c].kind) is None
            && item_ok(unit, c)))
        &&& mod_children_ok(unit, cs.drop_first(), bound)
    }
}

proof fn lemma_mod_children_at(unit: HostUnit, cs: Seq<usize>, bound: int, t: int)
    requires
        mod_children_ok(unit, cs, bound),
        0 <= t < cs.len(),
    ensures
        ({
            let c = cs[t] as int;
            &&& 0 <= c < bound
            &&& c < unit.items@.len()
            &&& (item_skipped(unit.items@[c].kind) || (item_fatal(unit.items@[c].kind) is None
                && item_ok(unit, c)))
        }),
    decreases t,
{
    if t > 0 {
        lemma_mod_children_at(unit, cs.drop_first(), bound, t - 1);
        assert(cs.drop_first()[t - 1] == cs[t]);
    }
}

/// Whether converted generics are exactly the conversion of host generics.
pub open spec fn generics_matches(
    layout: crate::host::HostLayout,
    hg: HostGenerics,
    g: crate::ast::GenericParams,
) -> bool {
    &&& spec_conv_params(layout, hg.params@) == Ok::<_, ConvError>(g.params@)
    &&& spec_clauses_res(layout, hg.predicates@) == Ok::<_, ConvError>(g.clauses@.len() as int)
    &&& spec_clauses_match(layout, hg.predicates@, g.clauses@)
}

/// Whether converted callable data is exactly the conversion of a host
/// signature.
pub open spec fn sig_matches(
    layout: crate::host::HostLayout,
    fn_sig: HostFnSig,
    c: crate::ast::CommonCallableData,
    is_extern: bool,
) -> bool {
    &&& spec_sig_params(layout, fn_sig.decl.inputs@) == Ok::<_, ConvError>(c.params@)
    &&& match fn_sig.decl.output {
        Some(t) => spec_conv_ty(layout, t) matches Ok(tt) && c.return_ty == Some(tt),
        None => c.return_ty is None,
    }
    &&& c.is_const == fn_sig.header.is_const
    &&& c.is_async == fn_sig.header.is_async
    &&& c.is_unsafe == fn_sig.header.is_unsafe
    &&& c.is_extern == is_extern
    &&& c.abi == crate::convert::spec_abi(fn_sig.header.abi)
    &&& c.has_self == fn_sig.decl.implicit_self
}

/// Whether a converted module member list is exactly the conversion of the
/// host's member list: one arena node per kept child, in declaration
/// order, identified by the child's bridged id.
pub open spec fn mod_list_matches(
    layout: crate::host::HostLayout,
    unit: HostUnit,
    children: Seq<usize>,
    out: Seq<usize>,
    arena: Seq<Item>,
) -> bool {
    let kept = kept_children(unit, children);
    &&& out.len() == kept.len()
    &&& forall|t: int|
        0 <= t < out.len() ==> (#[trigger] out[t] as int) < arena.len() && arena[
            out[t] as int].data.id == portable_item_id(
            unit.items@[kept[t] as int].owner_def_id,
        )
}

/// Whether a converted associated-item list is exactly the conversion of
/// an impl's member list.
pub open spec fn assoc_list_matches(
    unit: HostUnit,
    members: Seq<usize>,
    out: Seq<usize>,
    arena: Seq<Item>,
) -> bool {
    &&& out.len() == members.len()
    &&& forall|t: int|
        0 <= t < out.len() ==> (#[trigger] out[t] as int) < arena.len() && arena[
            out[t] as int].data.id == portable_item_id(
            unit.impl_items@[members[t] as int].owner_def_id,
        )
}

/// Whether one arena node's payload is exactly the conversion of a host
/// item's payload.
pub open spec fn item_payload_matches(
    layout: crate::host::HostLayout,
    unit: HostUnit,
    hk: HostItemKind,
    name: SymbolId,
    v: ItemVariant,
    arena: Seq<Item>,
) -> bool {
    match hk {
        HostItemKind::ExternCrate(orig) => v matches ItemVariant::ExternCrate { original_name }
            && original_name == (match orig {
            Some(o) => SymbolId { index: o },
            None => name,
        }),
        HostItemKind::Use(path, use_kind) => v matches ItemVariant::Use {
            path: p,
            use_kind: uk,
        } && crate::convert::spec_path_segments(layout, path.segments@) == Ok::<_, ConvError>(
            p.segments@,
        ) && (match use_kind {
            HostUseKind::Single => uk == UseKind::Single,
            HostUseKind::Glob => uk == UseKind::Glob,
            HostUseKind::ListStem => false,
        }),
        HostItemKind::Static(ty, m, b) => v matches ItemVariant::Static {
            mutability,
            body,
            ty: t,
        } && mutability == (if m {
            Mutability::Mut
        } else {
            Mutability::Not
        }) && spec_body_id(layout, b) == Ok::<_, ConvError>(body) && spec_conv_ty(layout, ty)
            == Ok::<_, ConvError>(t),
        HostItemKind::Const(ty, b) => v matches ItemVariant::Const { ty: t, body }
            && spec_conv_ty(layout, ty) == Ok::<_, ConvError>(t) && (body matches Some(bb)
            && spec_body_id(layout, b) == Ok::<_, ConvError>(bb)),
        HostItemKind::Fn(sig, g, b) => v matches ItemVariant::Fn { generics, sig: s, body }
            && generics_matches(layout, g, generics) && sig_matches(layout, sig, s, false) && (
        body matches Some(bb) && spec_body_id(layout, b) == Ok::<_, ConvError>(bb)),
        HostItemKind::Mod(children) => v matches ItemVariant::Mod { items } && mod_list_matches(
            layout,
            unit,
            children@,
            items@,
            arena,
        ),
        HostItemKind::TyAlias(ty, g) => v matches ItemVariant::TyAlias { generics, ty: t }
            && generics_matches(layout, g, generics) && (t matches Some(tt) && spec_conv_ty(
            layout,
            ty,
        ) == Ok::<_, ConvError>(tt)),
        HostItemKind::Impl(data) => v matches ItemVariant::Impl {
            is_unsafe,
            is_positive,
            of_trait,
            generics,
            self_ty,
            assoc_items,
        } && is_unsafe == data.is_unsafe && is_positive == data.polarity_positive && (match data
            .of_trait {
            Some(tr) => of_trait matches Some(otr) && spec_trait_ref(layout, tr) == Ok::<
                _,
                ConvError,
            >(otr),
            None => of_trait is None,
        }) && generics_matches(layout, data.generics, generics) && spec_conv_ty(
            layout,
            data.self_ty,
        ) == Ok::<_, ConvError>(self_ty) && assoc_list_matches(
            unit,
            data.items@,
            assoc_items@,
            arena,
        ),
        _ => false,
    }
}

/// Whether every trait reference a unit's items will hand to the engine
/// carries a resolution the engine can bridge.
pub open spec fn unit_res_wf(unit: HostUnit) -> bool {
    &&& forall|i: int|
        0 <= i < unit.items@.len() ==> item_res_wf(#[trigger] unit.items@[i].kind)
    &&& forall|i: int|
        0 <= i < unit.impl_items@.len() ==> preds_res_wf(
            (#[trigger] unit.impl_items@[i]).generics.predicates@,
        )
}

/// The resolution well-formedness one item kind needs.
pub open spec fn item_res_wf(kind: HostItemKind) -> bool {
    match kind {
        HostItemKind::Fn(_, g, _) => preds_res_wf(g.predicates@),
        HostItemKind::TyAlias(_, g) => preds_res_wf(g.predicates@),
        HostItemKind::Impl(data) => {
            &&& preds_res_wf(data.generics.predicates@)
            &&& match data.of_trait {
                Some(tr) => tr.path.res is Trait || tr.path.res is TraitAlias,
                None => true,
            }
        },
        _ => true,
    }
}

/// The lazy conversion engine for one pass: the pass context, the node
/// cache keyed by bridged item id, and the arena owning every converted
/// node for the lifetime of the pass.
pub struct ItemConverter {
    /// The pass-scoped conversion context.
    pub cx: MarkerConversionContext,
    /// The node cache: bridged item id to arena index.
    pub items: HashMap<u64, usize>,
    /// The pass arena.  Nodes are only ever appended.
    pub arena: Vec<Item>,
}

/// The cache key a portable item id encodes to.
pub open spec fn key_of_id(id: ItemId) -> u64 {
    spec_encode_pair(id.krate, id.index)
}

/// One engine state evolves into another within a pass: the context is
/// untouched, every existing arena node stays where it is unchanged, and
/// every cached id keeps its node.
pub open spec fn evolves_to(pre: ItemConverter, post: ItemConverter) -> bool {
    &&& post.cx == pre.cx
    &&& pre.arena@.len() <= post.arena@.len()
    &&& forall|j: int| 0 <= j < pre.arena@.len() ==> post.arena@[j] == #[trigger] pre.arena@[j]
    &&& forall|k: u64|
        #[trigger] pre.items@.contains_key(k) ==> post.items@.contains_key(k) && post.items@[k]
            == pre.items@[k]
}

/// Evolution within a pass composes.
pub proof fn lemma_evolves_trans(a: ItemConverter, b: ItemConverter, c: ItemConverter)
    requires
        evolves_to(a, b),
        evolves_to(b, c),
    ensures
        evolves_to(a, c),
{
    assert forall|j: int| 0 <= j < a.arena@.len() implies c.arena@[j] == #[trigger] a.arena@[j] by {
        assert(b.arena@[j] == a.arena@[j]);
    }
    assert forall|k: u64| #[trigger] a.items@.contains_key(k) implies c.items@.contains_key(k)
        && c.items@[k] == a.items@[k] by {
        assert(b.items@.contains_key(k) && b.items@[k] == a.items@[k]);
    }
}

impl ItemConverter {
    /// The engine is well formed for a unit when every cached node lies in
    /// the arena under the id it was cached for, and no recoverably-skipped
    /// item of the unit is cached.
    pub open spec fn wf_for(self, unit: HostUnit) -> bool {
        &&& forall|k: u64|
            self.items@.contains_key(k) ==> (#[trigger] self.items@[k] as int) < self.arena@.len()
        &&& forall|k: u64|
            self.items@.contains_key(k) ==> key_of_id(
                self.arena@[#[trigger] self.items@[k] as int].data.id,
            ) == k
        &&& forall|j: int|
            0 <= j < unit.items@.len() && item_skipped(unit.items@[j].kind)
                ==> !self.items@.contains_key(key_of(#[trigger] unit.items@[j].owner_def_id))
    }

    /// A fresh engine for one pass.
    pub fn new(cx: MarkerConversionContext) -> (r: Self)
        ensures
            r.cx == cx,
            r.items@ == Map::<u64, usize>::empty(),
            r.arena@.len() == 0,
            forall|unit: HostUnit| r.wf_for(unit),
    {
        ItemConverter { cx, items: HashMap::new(), arena: Vec::new() }
    }

    /// Looks up the cached arena index for a key.
    fn cache_get(&self, key: u64) -> (r: Option<usize>)
        ensures
            match r {
                Some(k) => self.items@.contains_key(key) && self.items@[key] == k,
                None => !self.items@.contains_key(key),
            },
    {
        match self.items.get(&key) {
            Some(k) => Some(*k),
            None => None,
        }
    }

    /// Appends a freshly converted node to the arena and caches it under
    /// its key.  The node's id must encode back to the key, and the key
    /// must not belong to any recoverably-skipped item of the unit.
    fn cache_insert(&mut self, Ghost(unit): Ghost<HostUnit>, key: u64, node: Item) -> (k: usize)
        requires
            old(self).wf_for(unit),
            !old(self).items@.contains_key(key),
            key_of_id(node.data.id) == key,
            forall|j: int|
                0 <= j < unit.items@.len() && item_skipped(unit.items@[j].kind) ==> key_of(
                    #[trigger] unit.items@[j].owner_def_id,
                ) != key,
        ensures
            final(self).wf_for(unit),
            evolves_to(*old(self), *final(self)),
            final(self).arena@ == old(self).arena@.push(node),
            k == old(self).arena@.len(),
            final(self).items@ == old(self).items@.insert(key, k),
    {
        let k = self.arena.len();
        self.arena.push(node);
        self.items.insert(key, k);
        proof {
            assert forall|k2: u64| self.items@.contains_key(k2) implies (
            #[trigger] self.items@[k2] as int) < self.arena@.len() && key_of_id(
                self.arena@[self.items@[k2] as int].data.id,
            ) == k2 by {
                if k2 == key {
                    assert(self.items@[k2] == k);
                    assert(self.arena@[k as int] == node);
                } else {
                    assert(old(self).items@.contains_key(k2));
                    assert(self.items@[k2] == old(self).items@[k2]);
                    assert((old(self).items@[k2] as int) < old(self).arena@.len());
                    assert(self.arena@[old(self).items@[k2] as int] == old(self).arena@[old(
                        self,
                    ).items@[k2] as int]);
                }
            }
        }
        k
    }

    /// Converts one associated item of an impl block, lazily: a cached
    /// identity returns its existing node.
    pub fn conv_assoc_item(&mut self, unit: &HostUnit, m: usize) -> (r: Result<usize, ConvError>)
        requires
            old(self).wf_for(*unit),
            unit.wf(),
            unit_res_wf(*unit),
            m < unit.impl_items@.len(),
        ensures
            final(self).wf_for(*unit),
            evolves_to(*old(self), *final(self)),
            forall|j: int|
                0 <= j < unit.items@.len() ==> (final(self).items@.contains_key(
                    key_of(#[trigger] unit.items@[j].owner_def_id),
                ) <==> old(self).items@.contains_key(key_of(unit.items@[j].owner_def_id))),
            ({
                let ii = unit.impl_items@[m as int];
                let def_ok = final(self).cx.layout.def_id_bytes == crate::convert::ITEM_ID_BYTES;
                &&& (!def_ok ==> r == Err::<usize, _>(ConvError::LayoutMismatch {
                    kind: IdKind::Item,
                    host_bytes: old(self).cx.layout.def_id_bytes,
                    portable_bytes: crate::convert::ITEM_ID_BYTES,
                }) && *final(self) == *old(self))
                &&& (def_ok && old(self).items@.contains_key(key_of(ii.owner_def_id)) ==> r
                    == Ok::<_, ConvError>(old(self).items@[key_of(ii.owner_def_id)])
                    && *final(self) == *old(self))
                &&& (crate::convert::layout_all_ok(old(self).cx.layout) && generics_ok(ii.generics)
                    ==> r is Ok)
                &&& match r {
                    Ok(k) => {
                        &&& (k as int) < final(self).arena@.len()
                        &&& final(self).items@.contains_key(key_of(ii.owner_def_id))
                        &&& final(self).items@[key_of(ii.owner_def_id)] == k
                        &&& final(self).arena@[k as int].data.id == portable_item_id(
                            ii.owner_def_id,
                        )
                    },
                    Err(_) => true,
                }
            }),
    {
        proof {
            if crate::convert::layout_all_ok(old(self).cx.layout) {
                let layout = old(self).cx.layout;
                let g = unit.impl_items@[m as int].generics;
                crate::generics_convert::lemma_conv_params_ok(layout, g.params@);
                if generics_ok(unit.impl_items@[m as int].generics) {
                    crate::generics_convert::lemma_clauses_res_ok(layout, g.predicates@);
                }
                match unit.impl_items@[m as int].kind {
                    HostImplItemKind::Fn(sig, _) => {
                        crate::generics_convert::lemma_sig_params_ok(layout, sig.decl.inputs@);
                    },
                    _ => {},
                }
            }
        }
        let ii = &unit.impl_items[m];
        let id = match self.cx.to_item_id(ii.owner_def_id) {
            Ok(id) => id,
            Err(e) => {
                return Err(e);
            },
        };
        let key = crate::ids::encode_pair(id.krate, id.index);
        if let Some(k) = self.cache_get(key) {
            proof {
                crate::ids::lemma_encode_pair_injective(
                    self.arena@[self.items@[key] as int].data.id.krate,
                    self.arena@[self.items@[key] as int].data.id.index,
                    ii.owner_def_id.krate,
                    ii.owner_def_id.index,
                );
            }
            return Ok(k);
        }
        let name = match self.cx.to_symbol_id(ii.ident_name) {
            Ok(n) => n,
            Err(e) => {
                return Err(e);
            },
        };
        let kind: ItemVariant = match &ii.kind {
            HostImplItemKind::Const(ty, b) => {
                let t = match self.conv_ty(ty) {
                    Ok(t) => t,
                    Err(e) => {
                        return Err(e);
                    },
                };
                let body = match self.cx.to_body_id(*b) {
                    Ok(b) => b,
                    Err(e) => {
                        return Err(e);
                    },
                };
                ItemVariant::Const { ty: t, body: Some(body) }
            },
            HostImplItemKind::Fn(sig, b) => {
                let generics = match self.conv_generic(&ii.generics) {
                    Ok(g) => g,
                    Err(e) => {
                        return Err(e);
                    },
                };
                let s = match self.conv_fn_sig(sig, false) {
                    Ok(s) => s,
                    Err(e) => {
                        return Err(e);
                    },
                };
                let body = match self.cx.to_body_id(*b) {
                    Ok(b) => b,
                    Err(e) => {
                        return Err(e);
                    },
                };
                ItemVariant::Fn { generics, sig: s, body: Some(body) }
            },
            HostImplItemKind::Type(ty) => {
                let generics = match self.conv_generic(&ii.generics) {
                    Ok(g) => g,
                    Err(e) => {
                        return Err(e);
                    },
                };
                let t = match self.conv_ty(ty) {
                    Ok(t) => t,
                    Err(e) => {
                        return Err(e);
                    },
                };
                ItemVariant::TyAlias { generics, ty: Some(t) }
            },
        };
        proof {
            assert forall|j: int| 0 <= j < unit.items@.len() implies key_of(
                #[trigger] unit.items@[j].owner_def_id,
            ) != key by {
                if key_of(unit.items@[j].owner_def_id) == key {
                    crate::ids::lemma_encode_pair_injective(
                        unit.items@[j].owner_def_id.krate,
                        unit.items@[j].owner_def_id.index,
                        ii.owner_def_id.krate,
                        ii.owner_def_id.index,
                    );
                }
            }
        }
        let k = self.cache_insert(
            Ghost(*unit),
            key,
            Item { data: CommonItemData::new(id, name), kind },
        );
        Ok(k)
    }

    /// Converts one host item on demand.
    ///
    /// Repeated requests for the same host identity return the identical
    /// cached node.  A recoverably-unsupported item yields `Ok(None)` and
    /// is absent from its container; an item with no representation stops
    /// the pass with a distinguishable failure; a byte-size mismatch
    /// between the host and portable id layouts aborts before any output.
    pub fn conv_item(&mut self, unit: &HostUnit, idx: usize) -> (r: Result<
        Option<usize>,
        ConvError,
    >)
        requires
            old(self).wf_for(*unit),
            unit.wf(),
            unit_res_wf(*unit),
            idx < unit.items@.len(),
        ensures
            final(self).wf_for(*unit),
            evolves_to(*old(self), *final(self)),
            forall|j: int|
                idx < j < unit.items@.len() ==> (final(self).items@.contains_key(
                    key_of(#[trigger] unit.items@[j].owner_def_id),
                ) <==> old(self).items@.contains_key(key_of(unit.items@[j].owner_def_id))),
            ({
                let it = unit.items@[idx as int];
                let layout = old(self).cx.layout;
                let def_ok = layout.def_id_bytes == crate::convert::ITEM_ID_BYTES;
                let sym_ok = layout.symbol_bytes == crate::convert::SYMBOL_ID_BYTES;
                let cached = old(self).items@.contains_key(key_of(it.owner_def_id));
                &&& (!def_ok ==> r == Err::<Option<usize>, _>(ConvError::LayoutMismatch {
                    kind: IdKind::Item,
                    host_bytes: layout.def_id_bytes,
                    portable_bytes: crate::convert::ITEM_ID_BYTES,
                }) && *final(self) == *old(self))
                &&& (def_ok && cached ==> r == Ok::<_, ConvError>(Some(
                    old(self).items@[key_of(it.owner_def_id)],
                )) && *final(self) == *old(self))
                &&& (def_ok && !cached && !sym_ok ==> r == Err::<Option<usize>, _>(
                    ConvError::LayoutMismatch {
                        kind: IdKind::Symbol,
                        host_bytes: layout.symbol_bytes,
                        portable_bytes: crate::convert::SYMBOL_ID_BYTES,
                    },
                ) && *final(self) == *old(self))
                &&& (def_ok && sym_ok && !cached ==> match item_fatal(it.kind) {
                    Some(u) => r == Err::<Option<usize>, _>(ConvError::NotYetImplemented {
                        kind: u,
                    }) && *final(self) == *old(self),
                    None => true,
                })
                &&& (def_ok && sym_ok && !cached && item_skipped(it.kind) ==> r == Ok::<
                    Option<usize>,
                    ConvError,
                >(None) && *final(self) == *old(self))
                &&& (r == Ok::<_, ConvError>(None::<usize>) ==> item_skipped(it.kind))
                &&& (crate::convert::layout_all_ok(layout) && !cached && item_fatal(it.kind)
                    is None && !item_skipped(it.kind) && item_ok(*unit, idx as int) ==> r is Ok)
                &&& match r {
                    Ok(Some(k)) => {
                        &&& (k as int) < final(self).arena@.len()
                        &&& final(self).items@.contains_key(key_of(it.owner_def_id))
                        &&& final(self).items@[key_of(it.owner_def_id)] == k
                        &&& final(self).arena@[k as int].data.id == portable_item_id(
                            it.owner_def_id,
                        )
                        &&& (!cached ==> final(self).arena@[k as int].data.name == SymbolId {
                            index: it.ident_name,
                        } && item_payload_matches(
                            layout,
                            *unit,
                            it.kind,
                            SymbolId { index: it.ident_name },
                            final(self).arena@[k as int].kind,
                            final(self).arena@,
                        ))
                    },
                    _ => true,
                }
            }),
        decreases idx,
    {
        let item = &unit.items[idx];
        let id = match self.cx.to_item_id(item.owner_def_id) {
            Ok(id) => id,
            Err(e) => {
                return Err(e);
            },
        };
        let key = crate::ids::encode_pair(id.krate, id.index);
        if let Some(k) = self.cache_get(key) {
            proof {
                crate::ids::lemma_encode_pair_injective(
                    self.arena@[self.items@[key] as int].data.id.krate,
                    self.arena@[self.items@[key] as int].data.id.index,
                    item.owner_def_id.krate,
                    item.owner_def_id.index,
                );
            }
            return Ok(Some(k));
        }
        let name = match self.cx.to_symbol_id(item.ident_name) {
            Ok(n) => n,
            Err(e) => {
                return Err(e);
            },
        };
        proof {
            assert(unit.wf());
            assert(host_item_children_wf(
                unit.items@[idx as int].kind,
                idx as int,
                unit.impl_items@.len() as int,
            ));
            assert(item_res_wf(unit.items@[idx as int].kind));
            if crate::convert::layout_all_ok(self.cx.layout) && item_ok(*unit, idx as int) {
                let layout = self.cx.layout;
                match unit.items@[idx as int].kind {
                    HostItemKind::Use(path, _) => {
                        crate::generics_convert::lemma_path_segments_ok(layout, path.segments@);
                    },
                    HostItemKind::Fn(sig, g, _) => {
                        crate::generics_convert::lemma_conv_params_ok(layout, g.params@);
                        crate::generics_convert::lemma_clauses_res_ok(layout, g.predicates@);
                        crate::generics_convert::lemma_sig_params_ok(layout, sig.decl.inputs@);
                    },
                    HostItemKind::TyAlias(_, g) => {
                        crate::generics_convert::lemma_conv_params_ok(layout, g.params@);
                        crate::generics_convert::lemma_clauses_res_ok(layout, g.predicates@);
                    },
                    HostItemKind::Impl(data) => {
                        crate::generics_convert::lemma_conv_params_ok(
                            layout,
                            data.generics.params@,
                        );
                        crate::generics_convert::lemma_clauses_res_ok(
                            layout,
                            data.generics.predicates@,
                        );
                    },
                    _ => {},
                }
            }
        }
        let kind: ItemVariant = match &item.kind {
            HostItemKind::ExternCrate(orig) => {
                let original_name = match orig {
                    Some(o) => match self.cx.to_symbol_id(*o) {
                        Ok(s) => s,
                        Err(e) => {
                            return Err(e);
                        },
                    },
                    None => name,
                };
                ItemVariant::ExternCrate { original_name }
            },
            HostItemKind::Use(path, use_kind) => {
                let uk = match use_kind {
                    HostUseKind::Single => UseKind::Single,
                    HostUseKind::Glob => UseKind::Glob,
                    HostUseKind::ListStem => {
                        return Ok(None);
                    },
                };
                let p = match self.cx.to_path(path) {
                    Ok(p) => p,
                    Err(e) => {
                        return Err(e);
                    },
                };
                ItemVariant::Use { path: p, use_kind: uk }
            },
            HostItemKind::Static(ty, mutable, b) => {
                let mutability = if *mutable {
                    Mutability::Mut
                } else {
                    Mutability::Not
                };
                let body = match self.cx.to_body_id(*b) {
                    Ok(b) => b,
                    Err(e) => {
                        return Err(e);
                    },
                };
                let t = match self.conv_ty(ty) {
                    Ok(t) => t,
                    Err(e) => {
                        return Err(e);
                    },
                };
                ItemVariant::Static { mutability, body, ty: t }
            },
            HostItemKind::Const(ty, b) => {
                let t = match self.conv_ty(ty) {
                    Ok(t) => t,
                    Err(e) => {
                        return Err(e);
                    },
                };
                let body = match self.cx.to_body_id(*b) {
                    Ok(b) => b,
                    Err(e) => {
                        return Err(e);
                    },
                };
                ItemVariant::Const { ty: t, body: Some(body) }
            },
            HostItemKind::Fn(sig, g, b) => {
                let generics = match self.conv_generic(g) {
                    Ok(g) => g,
                    Err(e) => {
                        return Err(e);
                    },
                };
                let s = match self.conv_fn_sig(sig, false) {
                    Ok(s) => s,
                    Err(e) => {
                        return Err(e);
                    },
                };
                let body = match self.cx.to_body_id(*b) {
                    Ok(b) => b,
                    Err(e) => {
                        return Err(e);
                    },
                };
                ItemVariant::Fn { generics, sig: s, body: Some(body) }
            },
            HostItemKind::Mod(children) => {
                let n = children.len();
                let mut out: Vec<usize> = Vec::new();
                let mut t: usize = 0;
                let ghost fn_entry = *old(self);
                proof {
                    assert(children@.take(0) =~= Seq::<usize>::empty());
                }
                while t < n
                    invariant
                        self.wf_for(*unit),
                        fn_entry == *old(self),
                        evolves_to(fn_entry, *self),
                        self.cx == fn_entry.cx,
                        unit.wf(),
                        unit_res_wf(*unit),
                        idx < unit.items@.len(),
                        self.cx.layout.def_id_bytes == crate::convert::ITEM_ID_BYTES,
                        self.cx.layout.symbol_bytes == crate::convert::SYMBOL_ID_BYTES,
                        unit.items@[idx as int].kind matches HostItemKind::Mod(cs) && cs@
                            == children@,
                        forall|u: int| 0 <= u < children@.len() ==> 0 <= #[trigger] children@[u]
                            < idx,
                        !self.items@.contains_key(key_of(unit.items@[idx as int].owner_def_id)),
                        forall|j: int|
                            idx < j < unit.items@.len() ==> (self.items@.contains_key(
                                key_of(#[trigger] unit.items@[j].owner_def_id),
                            ) <==> fn_entry.items@.contains_key(
                                key_of(unit.items@[j].owner_def_id),
                            )),
                        n == children@.len(),
                        0 <= t <= n,
                        mod_list_matches(
                            self.cx.layout,
                            *unit,
                            children@.take(t as int),
                            out@,
                            self.arena@,
                        ),
                    decreases n - t,
                {
                    proof {
                        assert(children@.take(t as int + 1) =~= children@.take(t as int).push(
                            children@[t as int],
                        ));
                        lemma_kept_children_snoc(
                            *unit,
                            children@.take(t as int),
                            children@[t as int],
                        );
                    }
                    let c = children[t];
                    let ghost pre = *self;
                    let cr = self.conv_item(unit, c);
                    proof {
                        lemma_evolves_trans(fn_entry, pre, *self);
                    }
                    match cr {
                        Err(e) => {
                            proof {
                                if crate::convert::layout_all_ok(fn_entry.cx.layout) && item_ok(
                                    *unit,
                                    idx as int,
                                ) {
                                    assert(mod_children_ok(*unit, children@, idx as int));
                                    lemma_mod_children_at(
                                        *unit,
                                        children@,
                                        idx as int,
                                        t as int,
                                    );
                                    let ghost c_int = children@[t as int] as int;
                                    if item_skipped(unit.items@[c_int].kind) {
                                        assert(!pre.items@.contains_key(
                                            key_of(unit.items@[c_int].owner_def_id),
                                        ));
                                    }
                                    assert(false);
                                }
                            }
                            return Err(e);
                        },
                        Ok(None) => {},
                        Ok(Some(ck)) => {
                            proof {
                                if item_skipped(unit.items@[c as int].kind) {
                                    assert(!pre.items@.contains_key(
                                        key_of(unit.items@[c as int].owner_def_id),
                                    ));
                                }
                                assert(!item_skipped(unit.items@[c as int].kind));
                            }
                            out.push(ck);
                        },
                    }
                    t += 1;
                }
                proof {
                    assert(children@.take(n as int) =~= children@);
                }
                ItemVariant::Mod { items: out }
            },
            HostItemKind::ForeignMod => {
                return Err(ConvError::NotYetImplemented { kind: UnsupportedKind::ForeignMod });
            },
            HostItemKind::Macro => {
                return Ok(None);
            },
            HostItemKind::GlobalAsm => {
                return Ok(None);
            },
            HostItemKind::TyAlias(ty, g) => {
                let generics = match self.conv_generic(g) {
                    Ok(g) => g,
                    Err(e) => {
                        return Err(e);
                    },
                };
                let t = match self.conv_ty(ty) {
                    Ok(t) => t,
                    Err(e) => {
                        return Err(e);
                    },
                };
                ItemVariant::TyAlias { generics, ty: Some(t) }
            },
            HostItemKind::OpaqueTy => {
                return Err(ConvError::NotYetImplemented { kind: UnsupportedKind::OpaqueTy });
            },
            HostItemKind::Enum => {
                return Err(ConvError::NotYetImplemented { kind: UnsupportedKind::Enum });
            },
            HostItemKind::Struct => {
                return Err(ConvError::NotYetImplemented { kind: UnsupportedKind::Struct });
            },
            HostItemKind::Union => {
                return Err(ConvError::NotYetImplemented { kind: UnsupportedKind::Union });
            },
            HostItemKind::Trait => {
                return Err(ConvError::NotYetImplemented { kind: UnsupportedKind::Trait });
            },
            HostItemKind::TraitAlias => {
                return Err(ConvError::NotYetImplemented { kind: UnsupportedKind::TraitAlias });
            },
            HostItemKind::Impl(data) => {
                let of_trait = match &data.of_trait {
                    Some(tr) => match self.cx.to_trait_ref(tr) {
                        Ok(otr) => Some(otr),
                        Err(e) => {
                            return Err(e);
                        },
                    },
                    None => None,
                };
                let generics = match self.conv_generic(&data.generics) {
                    Ok(g) => g,
                    Err(e) => {
                        return Err(e);
                    },
                };
                let self_ty = match self.conv_ty(&data.self_ty) {
                    Ok(t) => t,
                    Err(e) => {
                        return Err(e);
                    },
                };
                let ghost pre_assoc = *self;
                let assoc_items = match self.conv_assoc_items(unit, &data.items) {
                    Ok(list) => list,
                    Err(e) => {
                        proof {
                            if crate::convert::layout_all_ok(self.cx.layout) && item_ok(
                                *unit,
                                idx as int,
                            ) {
                                assert forall|u: int| 0 <= u < data.items@.len() implies
                                    generics_ok(
                                        unit.impl_items@[#[trigger] data.items@[u] as int].generics,
                                    ) by {
                                    assert((data.items@[u] as int) < unit.impl_items@.len());
                                }
                                assert(false);
                            }
                        }
                        return Err(e);
                    },
                };
                ItemVariant::Impl {
                    is_unsafe: data.is_unsafe,
                    is_positive: data.polarity_positive,
                    of_trait,
                    generics,
                    self_ty,
                    assoc_items,
                }
            },
        };
        proof {
            assert forall|j: int|
                0 <= j < unit.items@.len() && j != idx as int implies key_of(
                #[trigger] unit.items@[j].owner_def_id,
            ) != key by {
                if key_of(unit.items@[j].owner_def_id) == key {
                    crate::ids::lemma_encode_pair_injective(
                        unit.items@[j].owner_def_id.krate,
                        unit.items@[j].owner_def_id.index,
                        unit.items@[idx as int].owner_def_id.krate,
                        unit.items@[idx as int].owner_def_id.index,
                    );
                    assert(unit.items@[j].owner_def_id == unit.items@[idx as int].owner_def_id);
                }
            }
        }
        let ghost before_insert = *self;
        let k = self.cache_insert(
            Ghost(*unit),
            key,
            Item { data: CommonItemData::new(id, name), kind },
        );
        proof {
            lemma_evolves_trans(*old(self), before_insert, *self);
        }
        Ok(Some(k))
    }

    /// Converts a list of host items, in declaration order, with the
    /// recoverably-unsupported ones absent from the output.
    pub fn conv_items(&mut self, unit: &HostUnit, ids: &Vec<usize>) -> (r: Result<
        Vec<usize>,
        ConvError,
    >)
        requires
            old(self).wf_for(*unit),
            unit.wf(),
            unit_res_wf(*unit),
            forall|t: int| 0 <= t < ids@.len() ==> (#[trigger] ids@[t] as int) < unit.items@.len(),
        ensures
            final(self).wf_for(*unit),
            evolves_to(*old(self), *final(self)),
            (crate::convert::layout_all_ok(old(self).cx.layout) && (forall|u: int|
                0 <= u < ids@.len() ==> item_skipped(
                    unit.items@[#[trigger] ids@[u] as int].kind,
                ) || (item_fatal(unit.items@[ids@[u] as int].kind) is None && item_ok(
                    *unit,
                    ids@[u] as int,
                ))) ==> r is Ok),
            match r {
                Ok(list) => mod_list_matches(
                    final(self).cx.layout,
                    *unit,
                    ids@,
                    list@,
                    final(self).arena@,
                ),
                Err(_) => true,
            },
    {
        let n = ids.len();
        let mut out: Vec<usize> = Vec::new();
        let mut t: usize = 0;
        proof {
            assert(ids@.take(0) =~= Seq::<usize>::empty());
        }
        while t < n
            invariant
                self.wf_for(*unit),
                evolves_to(*old(self), *self),
                unit.wf(),
                unit_res_wf(*unit),
                forall|u: int| 0 <= u < ids@.len() ==> (#[trigger] ids@[u] as int)
                    < unit.items@.len(),
                n == ids@.len(),
                0 <= t <= n,
                mod_list_matches(self.cx.layout, *unit, ids@.take(t as int), out@, self.arena@),
            decreases n - t,
        {
            proof {
                assert(ids@.take(t as int + 1) =~= ids@.take(t as int).push(ids@[t as int]));
                lemma_kept_children_snoc(*unit, ids@.take(t as int), ids@[t as int]);
            }
            let c = ids[t];
            let ghost pre = *self;
            let cr = self.conv_item(unit, c);
            proof {
                lemma_evolves_trans(*old(self), pre, *self);
            }
            match cr {
                Err(e) => {
                    proof {
                        if crate::convert::layout_all_ok(old(self).cx.layout) && (forall|u: int|
                            0 <= u < ids@.len() ==> item_skipped(
                                unit.items@[#[trigger] ids@[u] as int].kind,
                            ) || (item_fatal(unit.items@[ids@[u] as int].kind) is None && item_ok(
                                *unit,
                                ids@[u] as int,
                            ))) {
                            let ghost c_int = ids@[t as int] as int;
                            if item_skipped(unit.items@[c_int].kind) {
                                assert(!pre.items@.contains_key(
                                    key_of(unit.items@[c_int].owner_def_id),
                                ));
                            }
                            assert(false);
                        }
                    }
                    return Err(e);
                },
                Ok(None) => {},
                Ok(Some(ck)) => {
                    proof {
                        if item_skipped(unit.items@[c as int].kind) {
                            assert(!pre.items@.contains_key(
                                key_of(unit.items@[c as int].owner_def_id),
                            ));
                        }
                        assert(!item_skipped(unit.items@[c as int].kind));
                    }
                    out.push(ck);
                },
            }
            t += 1;
        }
        proof {
            assert(ids@.take(n as int) =~= ids@);
        }
        Ok(out)
    }

    /// Converts the associated items of an impl block, in declaration
    /// order.
    pub fn conv_assoc_items(&mut self, unit: &HostUnit, members: &Vec<usize>) -> (r: Result<
        Vec<usize>,
        ConvError,
    >)
        requires
            old(self).wf_for(*unit),
            unit.wf(),
            unit_res_wf(*unit),
            forall|t: int| 0 <= t < members@.len() ==> (#[trigger] members@[t] as int) < unit.impl_items@.len(),
        ensures
            final(self).wf_for(*unit),
            evolves_to(*old(self), *final(self)),
            forall|j: int|
                0 <= j < unit.items@.len() ==> (final(self).items@.contains_key(
                    key_of(#[trigger] unit.items@[j].owner_def_id),
                ) <==> old(self).items@.contains_key(key_of(unit.items@[j].owner_def_id))),
            (crate::convert::layout_all_ok(old(self).cx.layout) && (forall|t: int|
                0 <= t < members@.len() ==> generics_ok(
                    unit.impl_items@[#[trigger] members@[t] as int].generics,
                )) ==> r is Ok),
            match r {
                Ok(list) => assoc_list_matches(*unit, members@, list@, final(self).arena@),
                Err(_) => true,
            },
    {
        let n = members.len();
        let mut out: Vec<usize> = Vec::new();
        let mut t: usize = 0;
        while t < n
            invariant
                self.wf_for(*unit),
                evolves_to(*old(self), *self),
                unit.wf(),
                unit_res_wf(*unit),
                forall|u: int|
                    0 <= u < members@.len() ==> (#[trigger] members@[u] as int)
                        < unit.impl_items@.len(),
                forall|j: int|
                    0 <= j < unit.items@.len() ==> (self.items@.contains_key(
                        key_of(#[trigger] unit.items@[j].owner_def_id),
                    ) <==> old(self).items@.contains_key(
                        key_of(unit.items@[j].owner_def_id),
                    )),
                n == members@.len(),
                0 <= t <= n,
                out@.len() == t,
                forall|u: int|
                    0 <= u < t ==> (#[trigger] out@[u] as int) < self.arena@.len()
                        && self.arena@[out@[u] as int].data.id == portable_item_id(
                        unit.impl_items@[members@[u] as int].owner_def_id,
                    ),
            decreases n - t,
        {
            let ghost pre = *self;
            let k = match self.conv_assoc_item(unit, members[t]) {
                Ok(k) => k,
                Err(e) => {
                    proof {
                        lemma_evolves_trans(*old(self), pre, *self);
                        if crate::convert::layout_all_ok(old(self).cx.layout) && (forall|u: int|
                            0 <= u < members@.len() ==> generics_ok(
                                unit.impl_items@[#[trigger] members@[u] as int].generics,
                            )) {
                            assert(generics_ok(
                                unit.impl_items@[members@[t as int] as int].generics,
                            ));
                            assert(false);
                        }
                    }
                    return Err(e);
                },
            };
            proof {
                lemma_evolves_trans(*old(self), pre, *self);
            }
            out.push(k);
            t += 1;
        }
        Ok(out)
    }
}

} // verus!
