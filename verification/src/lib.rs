//! A stable bridge between an evolving host compiler and independently
//! compiled lint plugins.
//!
//! The crate has three parts: a portable AST model with fixed-width ids and
//! spans, a conversion engine that lazily maps host-internal nodes onto that
//! model with an identity-preserving cache, and a toolchain resolver that
//! locates a compatible driver binary and prepares the build commands that
//! route compilation through it.

pub mod ast;
pub mod context;
pub mod convert;
pub mod errors;
pub mod expr;
pub mod generics_convert;
pub mod host;
pub mod ids;
pub mod item_convert;
pub mod stmt;
pub mod toolchain;

pub use errors::ConvError;
pub use errors::IdKind;
pub use errors::UnsupportedKind;
