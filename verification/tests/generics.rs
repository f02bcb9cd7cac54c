use marker_bridge::ast::{
    Abi, GenericParamKind, Lifetime, Mutability, SynTyKind, TyParamBound, UseKind,
    WhereClauseKind,
};
use marker_bridge::convert::MarkerConversionContext;
use marker_bridge::host::{
    HostAbi, HostBodyId, HostDefId, HostFnDecl, HostFnHeader, HostFnSig, HostGenericBound,
    HostGenericParam, HostGenericParamKind, HostGenerics, HostHirId, HostIdent, HostImplData,
    HostImplItem, HostImplItemKind, HostItem, HostItemKind, HostLayout, HostLifetime,
    HostParamName, HostPath, HostPathSegment, HostQPath, HostRes, HostSpan, HostTraitRef, HostTy,
    HostUnit, HostUseKind, HostWherePredicate,
};
use marker_bridge::ids::SymbolId;
use marker_bridge::item_convert::ItemConverter;
use marker_bridge::{ConvError, UnsupportedKind};

fn fresh_conv() -> ItemConverter {
    ItemConverter::new(MarkerConversionContext::new(
        HostLayout::matching(),
        Vec::new(),
        Vec::new(),
    ))
}

fn span(lo: u32, hi: u32) -> HostSpan {
    HostSpan { lo, hi }
}

fn no_generics() -> HostGenerics {
    HostGenerics { params: vec![], predicates: vec![] }
}

#[test]
fn generic_params_keep_declaration_order_and_skip_the_rest() {
    let conv = fresh_conv();
    let params = vec![
        HostGenericParam {
            owner_def_id: HostDefId { krate: 0, index: 1 },
            name: HostParamName::Plain(7),
            span: span(0, 2),
            kind: HostGenericParamKind::Lifetime { explicit: true },
        },
        HostGenericParam {
            owner_def_id: HostDefId { krate: 0, index: 2 },
            name: HostParamName::Fresh,
            span: span(3, 4),
            kind: HostGenericParamKind::Ty { synthetic: false },
        },
        HostGenericParam {
            owner_def_id: HostDefId { krate: 0, index: 3 },
            name: HostParamName::Plain(8),
            span: span(5, 6),
            kind: HostGenericParamKind::Ty { synthetic: true },
        },
        HostGenericParam {
            owner_def_id: HostDefId { krate: 0, index: 4 },
            name: HostParamName::Plain(9),
            span: span(7, 8),
            kind: HostGenericParamKind::Ty { synthetic: false },
        },
    ];
    let out = conv.conv_generic_params(&params).unwrap();
    assert_eq!(out.len(), 2);
    match &out[0] {
        GenericParamKind::Lifetime(lp) => {
            assert_eq!(lp.name, SymbolId { index: 7 });
            assert_eq!(lp.id.index, 1);
        },
        other => panic!("unexpected param: {other:?}"),
    }
    match &out[1] {
        GenericParamKind::Ty(tp) => {
            assert_eq!(tp.name, SymbolId { index: 9 });
            assert_eq!(tp.id.index, 4);
        },
        other => panic!("unexpected param: {other:?}"),
    }
}

fn trait_bound(index: u32, lo: u32, hi: u32) -> HostGenericBound {
    HostGenericBound::Trait {
        trait_ref: HostTraitRef {
            path: HostPath {
                segments: vec![HostPathSegment {
                    ident: HostIdent { name: 3, span: span(lo, hi) },
                }],
                res: HostRes::Trait(HostDefId { krate: 1, index }),
            },
        },
        relaxed: false,
        span: span(lo, hi),
    }
}

#[test]
fn bounds_keep_traits_and_named_lifetimes() {
    let conv = fresh_conv();
    let bounds = vec![
        trait_bound(40, 0, 5),
        HostGenericBound::Outlives(HostLifetime::Anonymous),
        HostGenericBound::Outlives(HostLifetime::Named(6)),
    ];
    let out = conv.conv_generic_bounds(&bounds).unwrap();
    assert_eq!(out.len(), 2);
    match &out[0] {
        TyParamBound::TraitBound(tb) => {
            assert!(!tb.is_relaxed);
            assert_eq!(tb.trait_ref.trait_id.index, 40);
        },
        other => panic!("unexpected bound: {other:?}"),
    }
    assert_eq!(
        out[1],
        TyParamBound::Lifetime(Lifetime { label: Some(SymbolId { index: 6 }) })
    );
}

#[test]
fn language_item_bound_stops_the_pass() {
    let conv = fresh_conv();
    let bounds = vec![HostGenericBound::LangItemTrait];
    let r = conv.conv_generic_bounds(&bounds);
    assert_eq!(
        r.unwrap_err(),
        ConvError::NotYetImplemented { kind: UnsupportedKind::LangItemTraitBound }
    );
}

#[test]
fn where_clauses_keep_bound_predicates_and_skip_anonymous_regions() {
    let conv = fresh_conv();
    let generics = HostGenerics {
        params: vec![],
        predicates: vec![
            HostWherePredicate::Bound {
                bound_generic_params: vec![],
                bounded_ty: HostTy { span: span(1, 2) },
                bounds: vec![trait_bound(41, 3, 4)],
            },
            HostWherePredicate::Region {
                lifetime: HostLifetime::Anonymous,
                bounds: vec![HostLifetime::Static],
            },
            HostWherePredicate::Region {
                lifetime: HostLifetime::Named(5),
                bounds: vec![HostLifetime::Named(6), HostLifetime::Anonymous],
            },
        ],
    };
    let out = conv.conv_generic(&generics).unwrap();
    assert_eq!(out.clauses.len(), 2);
    match &out.clauses[0] {
        WhereClauseKind::Ty(tc) => {
            assert_eq!(tc.bounds.len(), 1);
        },
        other => panic!("unexpected clause: {other:?}"),
    }
    match &out.clauses[1] {
        WhereClauseKind::Lifetime(lc) => {
            assert_eq!(lc.lifetime.label, Some(SymbolId { index: 5 }));
            assert_eq!(lc.bounds, vec![Lifetime { label: Some(SymbolId { index: 6 }) }]);
        },
        other => panic!("unexpected clause: {other:?}"),
    }
}

#[test]
fn fn_signatures_keep_parameter_order_and_header() {
    let conv = fresh_conv();
    let sig = HostFnSig {
        header: HostFnHeader {
            is_const: true,
            is_async: false,
            is_unsafe: true,
            abi: HostAbi::C,
        },
        decl: HostFnDecl {
            inputs: vec![HostTy { span: span(1, 4) }, HostTy { span: span(5, 9) }],
            output: Some(HostTy { span: span(10, 14) }),
            implicit_self: true,
        },
    };
    let c = conv.conv_fn_sig(&sig, false).unwrap();
    assert!(c.is_const);
    assert!(!c.is_async);
    assert!(c.is_unsafe);
    assert!(!c.is_extern);
    assert_eq!(c.abi, Abi::C);
    assert!(c.has_self);
    assert_eq!(c.params.len(), 2);
    assert_eq!(c.params[0].ty, Some(SynTyKind { span: marker_bridge::ids::SpanId { lo: 1, hi: 4 } }));
    assert_eq!(c.return_ty, Some(SynTyKind { span: marker_bridge::ids::SpanId { lo: 10, hi: 14 } }));
}

#[test]
fn qualified_paths_without_plain_resolution_are_unsupported() {
    let cx = MarkerConversionContext::new(HostLayout::matching(), Vec::new(), Vec::new());
    let r = cx.to_path_from_qpath(&HostQPath::TypeRelative);
    assert_eq!(
        r.unwrap_err(),
        ConvError::NotYetImplemented { kind: UnsupportedKind::QPathTypeRelative }
    );
    let plain = HostQPath::Resolved(HostPath {
        segments: vec![
            HostPathSegment { ident: HostIdent { name: 1, span: span(0, 1) } },
            HostPathSegment { ident: HostIdent { name: 2, span: span(2, 3) } },
        ],
        res: HostRes::Other,
    });
    let p = cx.to_path_from_qpath(&plain).unwrap();
    assert_eq!(p.segments.len(), 2);
    assert_eq!(p.segments[0].name, SymbolId { index: 1 });
    assert_eq!(p.segments[1].name, SymbolId { index: 2 });
}

#[test]
fn abi_and_ident_bridge_plainly() {
    let cx = MarkerConversionContext::new(HostLayout::matching(), Vec::new(), Vec::new());
    assert_eq!(cx.to_abi(HostAbi::Rust), Abi::Default);
    assert_eq!(cx.to_abi(HostAbi::C), Abi::C);
    assert_eq!(cx.to_abi(HostAbi::Other), Abi::Other);
    let ident = cx.to_ident(HostIdent { name: 9, span: span(4, 7) }).unwrap();
    assert_eq!(ident.name, SymbolId { index: 9 });
    assert_eq!(ident.span.lo, 4);
    assert_eq!(ident.span.hi, 7);
}

#[test]
fn impl_items_convert_with_their_members_in_order() {
    let impl_items = vec![
        HostImplItem {
            owner_def_id: HostDefId { krate: 0, index: 10 },
            ident_name: 50,
            generics: no_generics(),
            kind: HostImplItemKind::Const(
                HostTy { span: span(1, 2) },
                HostBodyId { hir_id: HostHirId { owner: 10, index: 0 } },
            ),
        },
        HostImplItem {
            owner_def_id: HostDefId { krate: 0, index: 11 },
            ident_name: 51,
            generics: no_generics(),
            kind: HostImplItemKind::Type(HostTy { span: span(3, 4) }),
        },
    ];
    let items = vec![HostItem {
        owner_def_id: HostDefId { krate: 0, index: 1 },
        ident_name: 40,
        kind: HostItemKind::Impl(HostImplData {
            is_unsafe: false,
            polarity_positive: true,
            of_trait: Some(HostTraitRef {
                path: HostPath {
                    segments: vec![],
                    res: HostRes::Trait(HostDefId { krate: 2, index: 77 }),
                },
            }),
            generics: no_generics(),
            self_ty: HostTy { span: span(5, 9) },
            items: vec![0, 1],
        }),
    }];
    let unit = HostUnit { items, impl_items };
    let mut conv = fresh_conv();
    let k = conv.conv_item(&unit, 0).unwrap().unwrap();
    assert_eq!(conv.arena.len(), 3);
    match &conv.arena[k].kind {
        marker_bridge::ast::ItemVariant::Impl { is_unsafe, is_positive, of_trait, assoc_items, .. } => {
            assert!(!is_unsafe);
            assert!(is_positive);
            assert_eq!(of_trait.unwrap().trait_id.index, 77);
            assert_eq!(assoc_items.len(), 2);
            assert_eq!(conv.arena[assoc_items[0]].data.id.index, 10);
            assert_eq!(conv.arena[assoc_items[1]].data.id.index, 11);
        },
        other => panic!("unexpected item: {other:?}"),
    }
}

#[test]
fn static_and_use_items_convert_exactly() {
    let items = vec![
        HostItem {
            owner_def_id: HostDefId { krate: 0, index: 1 },
            ident_name: 20,
            kind: HostItemKind::Static(
                HostTy { span: span(1, 2) },
                true,
                HostBodyId { hir_id: HostHirId { owner: 1, index: 3 } },
            ),
        },
        HostItem {
            owner_def_id: HostDefId { krate: 0, index: 2 },
            ident_name: 21,
            kind: HostItemKind::Use(
                HostPath {
                    segments: vec![HostPathSegment {
                        ident: HostIdent { name: 6, span: span(0, 1) },
                    }],
                    res: HostRes::Other,
                },
                HostUseKind::Glob,
            ),
        },
    ];
    let unit = HostUnit { items, impl_items: vec![] };
    let mut conv = fresh_conv();
    let s = conv.conv_item(&unit, 0).unwrap().unwrap();
    match &conv.arena[s].kind {
        marker_bridge::ast::ItemVariant::Static { mutability, body, .. } => {
            assert_eq!(*mutability, Mutability::Mut);
            assert_eq!(body.owner, 1);
            assert_eq!(body.index, 3);
        },
        other => panic!("unexpected item: {other:?}"),
    }
    let u = conv.conv_item(&unit, 1).unwrap().unwrap();
    match &conv.arena[u].kind {
        marker_bridge::ast::ItemVariant::Use { path, use_kind } => {
            assert_eq!(*use_kind, UseKind::Glob);
            assert_eq!(path.segments.len(), 1);
        },
        other => panic!("unexpected item: {other:?}"),
    }
}
