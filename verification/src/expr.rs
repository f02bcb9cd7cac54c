//! Portable expression nodes.
//!
//! An [`ExprKind`] is the copyable handle plugins pass around: the node's
//! id, its span and its category.  The nodes with structure of their own,
//! such as [`CallExpr`], are built by the driver and carry such handles for
//! their children.

use vstd::prelude::*;
use crate::ids::{ExprId, SpanId};

verus! {

/// The category of an expression node.
#[derive(Clone, Copy, Debug, PartialEq, Eq, Structural)]
pub enum ExprCategory {
    Call,
    Path,
    Lit,
    Block,
}

/// The copyable handle for an expression: its common header plus the
/// category of the node it stands for.
#[derive(Clone, Copy, Debug, PartialEq, Eq, Structural)]
pub struct ExprKind {
    pub id: ExprId,
    pub span: SpanId,
    pub category: ExprCategory,
}

impl ExprKind {
    pub fn id(&self) -> (r: ExprId)
        ensures
            r == self.id,
    {
        self.id
    }

    pub fn span(&self) -> (r: SpanId)
        ensures
            r == self.span,
    {
        self.span
    }
}

/// The data shared by every expression node.
#[derive(Clone, Copy, Debug, PartialEq, Eq, Structural)]
pub struct CommonExprData {
    pub id: ExprId,
    pub span: SpanId,
}

impl CommonExprData {
    pub fn new(id: ExprId, span: SpanId) -> (r: CommonExprData)
        ensures
            r.id == id,
            r.span == span,
    {
        CommonExprData { id, span }
    }
}

/// A call expression: an operand identifying what is called, and the
/// arguments handed to it, in source order.
#[derive(Clone, Debug)]
pub struct CallExpr {
    pub data: CommonExprData,
    pub operand: ExprKind,
    pub args: Vec<ExprKind>,
}

impl CallExpr {
    /// The expression identifying what will be called.
    pub fn operand(&self) -> (r: ExprKind)
        ensures
            r == self.operand,
    {
        self.operand
    }

    /// The arguments given to the operand.
    pub fn args(&self) -> (r: &Vec<ExprKind>)
        ensures
            r@ == self.args@,
    {
        &self.args
    }

    pub fn new(data: CommonExprData, operand: ExprKind, args: Vec<ExprKind>) -> (r: CallExpr)
        ensures
            r.data == data,
            r.operand == operand,
            r.args@ == args@,
    {
        CallExpr { data, operand, args }
    }
}

} // verus!
