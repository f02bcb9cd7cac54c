//! Portable statement nodes.

use vstd::prelude::*;
use crate::ast::{PatKind, Span, SynTyKind};
use crate::context::AstContext;
use crate::context::SpanOwner;
use crate::expr::ExprKind;
use crate::ids::{ItemId, LetStmtId, SpanId, StmtId, StmtIdInner};

verus! {

/// A statement: an item declaration, a `let` binding, or an expression.
#[derive(Clone, Debug)]
pub enum StmtKind {
    Item(ItemId),
    Let(LetStmt),
    Expr(ExprKind),
}

impl StmtKind {
    /// The id of this statement, derived from the node that makes it up.
    pub fn id(&self) -> (r: StmtId)
        ensures
            r.inner == (match *self {
                StmtKind::Item(item) => StmtIdInner::Item(item),
                StmtKind::Let(node) => StmtIdInner::LetStmt(node.id),
                StmtKind::Expr(node) => StmtIdInner::Expr(node.id),
            }),
    {
        match self {
            StmtKind::Item(node) => StmtId::ast_new(StmtIdInner::Item(*node)),
            StmtKind::Let(node) => node.id(),
            StmtKind::Expr(node) => StmtId::ast_new(StmtIdInner::Expr(node.id)),
        }
    }

    /// The span of this statement, resolved through the pass context.
    pub fn span(&self, cx: &AstContext) -> (r: Span)
        requires
            cx.resolves(self.owner()),
        ensures
            r == cx.resolved(self.owner()),
    {
        match self {
            StmtKind::Item(node) => cx.get_span(&SpanOwner::Item(*node)),
            StmtKind::Let(node) => node.span(cx),
            StmtKind::Expr(node) => cx.get_span(&SpanOwner::SpecificSpan(node.span)),
        }
    }

    /// The span-owning reference this statement resolves its span through.
    pub open spec fn owner(self) -> SpanOwner {
        match self {
            StmtKind::Item(item) => SpanOwner::Item(item),
            StmtKind::Let(node) => SpanOwner::SpecificSpan(node.span),
            StmtKind::Expr(node) => SpanOwner::SpecificSpan(node.span),
        }
    }

    /// The attributes attached to this statement.  Statements do not carry
    /// a portable attribute representation, so there is nothing to hand out.
    pub fn attrs(&self) {
    }
}

/// A `let` statement: a pattern bound to an optional initializer, with an
/// optional type annotation and an optional `else` expression.
#[derive(Clone, Debug)]
pub struct LetStmt {
    pub id: LetStmtId,
    pub span: SpanId,
    pub pat: PatKind,
    pub ty: Option<SynTyKind>,
    pub init: Option<ExprKind>,
    pub els: Option<ExprKind>,
}

impl LetStmt {
    pub fn id(&self) -> (r: StmtId)
        ensures
            r.inner == StmtIdInner::LetStmt(self.id),
    {
        StmtId::ast_new(StmtIdInner::LetStmt(self.id))
    }

    /// The span of this statement, resolved through the pass context.
    pub fn span(&self, cx: &AstContext) -> (r: Span)
        requires
            cx.resolves(SpanOwner::SpecificSpan(self.span)),
        ensures
            r == cx.resolved(SpanOwner::SpecificSpan(self.span)),
    {
        cx.get_span(&SpanOwner::SpecificSpan(self.span))
    }

    pub fn pat(&self) -> (r: PatKind)
        ensures
            r == self.pat,
    {
        self.pat
    }

    /// Returns the syntactic type, if it has been specified.
    pub fn ty(&self) -> (r: Option<SynTyKind>)
        ensures
            r == self.ty,
    {
        self.ty
    }

    pub fn init(&self) -> (r: Option<ExprKind>)
        ensures
            r == self.init,
    {
        self.init
    }

    /// The optional `else` expression of this `let` statement.
    ///
    /// `els` is an abbreviation for `else`, which is a reserved keyword.
    pub fn els(&self) -> (r: Option<ExprKind>)
        ensures
            r == self.els,
    {
        self.els
    }

    pub fn new(
        id: LetStmtId,
        span: SpanId,
        pat: PatKind,
        ty: Option<SynTyKind>,
        init: Option<ExprKind>,
        els: Option<ExprKind>,
    ) -> (r: LetStmt)
        ensures
            r == (LetStmt { id, span, pat, ty, init, els }),
    {
        LetStmt { id, span, pat, ty, init, els }
    }
}

} // verus!
