use marker_bridge::ast::{Span, SpanSource};
use marker_bridge::context::{AstContext, DriverCallbacks, Lint, SpanOwner};
use marker_bridge::convert::{
    host_body_id_of_body_id, host_crate_num_of_crate_id, host_def_id_of_generic_id,
    host_def_id_of_item_id, host_def_id_of_ty_def_id, host_hir_id_of_var_id,
    host_span_of_span_id, host_symbol_of_symbol_id, u32_decimal, MarkerConversionContext,
};
use marker_bridge::host::{
    HostBodyId, HostDefId, HostFile, HostFileName, HostHirId, HostItem, HostItemKind, HostLayout,
    HostPath, HostRes, HostSpan, HostUnit, HostUseKind,
};
use marker_bridge::ids::{SpanId, SymbolId};
use marker_bridge::item_convert::ItemConverter;
use marker_bridge::{ConvError, IdKind, UnsupportedKind};

fn fresh_cx() -> MarkerConversionContext {
    MarkerConversionContext::new(HostLayout::matching(), Vec::new(), Vec::new())
}

fn extern_crate_item(index: u32) -> HostItem {
    HostItem {
        owner_def_id: HostDefId { krate: 0, index },
        ident_name: 10 + index,
        kind: HostItemKind::ExternCrate(None),
    }
}

#[test]
fn conv_item_returns_identical_node_on_repeat() {
    let unit = HostUnit { items: vec![extern_crate_item(1)], impl_items: vec![] };
    let mut conv = ItemConverter::new(fresh_cx());
    let first = conv.conv_item(&unit, 0).unwrap().unwrap();
    let second = conv.conv_item(&unit, 0).unwrap().unwrap();
    assert_eq!(first, second);
    assert_eq!(conv.arena.len(), 1);
}

#[test]
fn conversion_is_deterministic() {
    let unit = HostUnit {
        items: vec![
            extern_crate_item(1),
            extern_crate_item(2),
            HostItem {
                owner_def_id: HostDefId { krate: 0, index: 3 },
                ident_name: 30,
                kind: HostItemKind::Mod(vec![0, 1]),
            },
        ],
        impl_items: vec![],
    };
    let mut a = ItemConverter::new(fresh_cx());
    let mut b = ItemConverter::new(fresh_cx());
    let ids = vec![2];
    let ra = a.conv_items(&unit, &ids).unwrap();
    let rb = b.conv_items(&unit, &ids).unwrap();
    assert_eq!(ra, rb);
    assert_eq!(format!("{:?}", a.arena), format!("{:?}", b.arena));
}

#[test]
fn portable_ids_recover_host_identity() {
    let cx = fresh_cx();
    let d = HostDefId { krate: 7, index: 41 };
    assert_eq!(host_def_id_of_item_id(cx.to_item_id(d).unwrap()), d);
    assert_eq!(host_def_id_of_generic_id(cx.to_generic_id(d).unwrap()), d);
    assert_eq!(host_def_id_of_ty_def_id(cx.to_ty_def_id(d).unwrap()), d);
    let b = HostBodyId { hir_id: HostHirId { owner: 3, index: 9 } };
    assert_eq!(host_body_id_of_body_id(cx.to_body_id(b).unwrap()), b);
    let h = HostHirId { owner: 4, index: 2 };
    assert_eq!(host_hir_id_of_var_id(cx.to_var_id(h).unwrap()), h);
    let s = HostSpan { lo: 11, hi: 29 };
    assert_eq!(host_span_of_span_id(cx.to_span_id(s).unwrap()), s);
    assert_eq!(host_crate_num_of_crate_id(cx.to_create_id(6).unwrap()), 6);
    assert_eq!(host_symbol_of_symbol_id(cx.to_symbol_id(17).unwrap()), 17);
}

#[test]
fn layout_mismatch_aborts_without_output() {
    let mut layout = HostLayout::matching();
    layout.def_id_bytes = 12;
    let cx = MarkerConversionContext::new(layout, Vec::new(), Vec::new());
    let unit = HostUnit { items: vec![extern_crate_item(1)], impl_items: vec![] };
    let mut conv = ItemConverter::new(cx);
    let r = conv.conv_item(&unit, 0);
    assert_eq!(
        r,
        Err(ConvError::LayoutMismatch { kind: IdKind::Item, host_bytes: 12, portable_bytes: 8 })
    );
    assert_eq!(conv.arena.len(), 0);
}

#[test]
fn span_layout_mismatch_is_fatal() {
    let mut layout = HostLayout::matching();
    layout.span_bytes = 16;
    let cx = MarkerConversionContext::new(layout, Vec::new(), Vec::new());
    let r = cx.to_span_id(HostSpan { lo: 0, hi: 4 });
    assert_eq!(
        r,
        Err(ConvError::LayoutMismatch { kind: IdKind::Span, host_bytes: 16, portable_bytes: 8 })
    );
}

#[test]
fn recoverable_import_stem_is_absent_from_module() {
    let list_stem = HostItem {
        owner_def_id: HostDefId { krate: 0, index: 1 },
        ident_name: 11,
        kind: HostItemKind::Use(
            HostPath { segments: vec![], res: HostRes::Other },
            HostUseKind::ListStem,
        ),
    };
    let keeper = extern_crate_item(2);
    let unit = HostUnit { items: vec![list_stem, keeper], impl_items: vec![] };
    let mut conv = ItemConverter::new(fresh_cx());
    let ids = vec![0, 1];
    let out = conv.conv_items(&unit, &ids).unwrap();
    assert_eq!(out.len(), 1);
    assert_eq!(conv.arena[out[0]].data.id.index, 2);
}

#[test]
fn not_yet_implemented_item_stops_the_pass() {
    let unit = HostUnit {
        items: vec![HostItem {
            owner_def_id: HostDefId { krate: 0, index: 1 },
            ident_name: 11,
            kind: HostItemKind::Enum,
        }],
        impl_items: vec![],
    };
    let mut conv = ItemConverter::new(fresh_cx());
    let r = conv.conv_item(&unit, 0);
    assert_eq!(r, Err(ConvError::NotYetImplemented { kind: UnsupportedKind::Enum }));
}

#[test]
fn span_offsets_are_relative_to_their_source() {
    let files = vec![HostFile {
        name: HostFileName::Real(String::from("/src/main.rs")),
        start_pos: 100,
        size: 50,
    }];
    let mut cx = MarkerConversionContext::new(HostLayout::matching(), files, Vec::new());
    let span = cx.to_span(HostSpan { lo: 110, hi: 120 }).unwrap();
    assert_eq!(span.start, 10);
    assert_eq!(span.end, 20);
    assert_eq!(span.source, SpanSource::File(0));
    let other = cx.to_span(HostSpan { lo: 130, hi: 140 }).unwrap();
    assert_eq!(other.source, SpanSource::File(0));
    assert_eq!(cx.span_srcs.len(), 1);
}

#[test]
fn macro_expansion_span_is_not_yet_implemented() {
    let files = vec![HostFile { name: HostFileName::MacroExpansion, start_pos: 0, size: 10 }];
    let mut cx = MarkerConversionContext::new(HostLayout::matching(), files, Vec::new());
    let r = cx.to_span(HostSpan { lo: 1, hi: 2 });
    assert_eq!(
        r,
        Err(ConvError::NotYetImplemented { kind: UnsupportedKind::MacroExpansionSpan })
    );
}

#[test]
fn numeric_symbols_are_cached_per_number() {
    let mut cx = fresh_cx();
    let a = cx.to_symbol_id_for_num(5307).unwrap();
    let b = cx.to_symbol_id_for_num(5307).unwrap();
    assert_eq!(a, b);
    assert_eq!(cx.symbols[a.index as usize], "5307");
    assert_eq!(u32_decimal(0), "0");
    assert_eq!(u32_decimal(90210), "90210");
}

#[test]
fn emit_lint_records_the_diagnostic() {
    let span = Span { source: SpanSource::File(0), start: 3, end: 8 };
    let driver = DriverCallbacks {
        spans: vec![(SpanOwner::SpecificSpan(SpanId { lo: 3, hi: 8 }), span)],
        snippets: vec![(span, String::from("duck"))],
        symbols: vec![String::from("quack")],
        diags: vec![],
    };
    let mut cx = AstContext::new(driver);
    let lint = Lint { name: String::from("duck_talk") };
    cx.emit_lint(&lint, "ducks can't talk", &span);
    assert_eq!(cx.driver.diags.len(), 1);
    assert_eq!(cx.driver.diags[0].lint.name, "duck_talk");
    assert_eq!(cx.driver.diags[0].msg, "ducks can't talk");
    assert_eq!(cx.driver.diags[0].span, span);
}

#[test]
fn context_resolves_spans_snippets_and_symbols() {
    let span = Span { source: SpanSource::File(0), start: 3, end: 8 };
    let other = Span { source: SpanSource::File(0), start: 9, end: 12 };
    let driver = DriverCallbacks {
        spans: vec![(SpanOwner::SpecificSpan(SpanId { lo: 3, hi: 8 }), span)],
        snippets: vec![(span, String::from("duck"))],
        symbols: vec![String::from("quack")],
        diags: vec![],
    };
    let cx = AstContext::new(driver);
    let resolved = cx.get_span(&SpanOwner::SpecificSpan(SpanId { lo: 3, hi: 8 }));
    assert_eq!(resolved, span);
    assert_eq!(cx.span_snipped(&span), Some(String::from("duck")));
    assert_eq!(cx.span_snipped(&other), None);
    assert_eq!(cx.symbol_str(SymbolId { index: 0 }), "quack");
}
