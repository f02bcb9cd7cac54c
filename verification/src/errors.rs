//! Error kinds shared by the conversion engine and the toolchain resolver.
//!
//! Layout mismatches and not-yet-implemented constructs are fatal by design:
//! the pass stops rather than producing a silently incomplete tree.

use vstd::prelude::*;

verus! {

/// Which portable id representation a layout check was guarding.
#[derive(Clone, Copy, Debug, PartialEq, Eq, Structural)]
pub enum IdKind {
    Crate,
    Span,
    Symbol,
    Generic,
    TyDef,
    Item,
    Body,
    Var,
}

/// A host construct that the portable AST cannot represent yet.
/// Meeting one of these is a fatal stop for the whole pass.
#[derive(Clone, Copy, Debug, PartialEq, Eq, Structural)]
pub enum UnsupportedKind {
    ForeignMod,
    OpaqueTy,
    Enum,
    Struct,
    Union,
    Trait,
    TraitAlias,
    MacroExpansionSpan,
    ProcMacroSpan,
    LangItemTraitBound,
    QPathWithSelfTy,
    QPathTypeRelative,
    QPathLangItem,
}

/// A fatal conversion failure.
///
/// `LayoutMismatch` means a runtime byte-size check between a host
/// representation and its portable counterpart failed: the host compiler's
/// internal layout has changed and continuing would corrupt the tree.
/// `NotYetImplemented` means the pass met a construct with no portable
/// representation at all; it is reported loudly instead of being skipped.
#[derive(Clone, Copy, Debug, PartialEq, Eq, Structural)]
pub enum ConvError {
    LayoutMismatch { kind: IdKind, host_bytes: usize, portable_bytes: usize },
    NotYetImplemented { kind: UnsupportedKind },
}

} // verus!
