//! The cross-boundary callback context.
//!
//! Plugin code never links against the driver; it receives an
//! [`AstContext`] and calls back into the live session through it alone.
//! The boundary is modeled as one [`DriverCallbacks`] value holding the
//! session's resolved tables: what each span-owning reference resolves to,
//! which spans have source text, and the session's symbol table.  A context
//! is a capability bound to exactly one pass; it is neither comparable nor
//! hashable, so it can never be mistaken for a value usable as a map key
//! across passes.

use vstd::prelude::*;
use crate::ast::Span;
use crate::ids::{ItemId, SpanId, SymbolId};

verus! {

/// A lint definition as plugin code hands it in when emitting a diagnostic.
#[derive(Debug)]
pub struct Lint {
    pub name: String,
}

impl Clone for Lint {
    fn clone(&self) -> (r: Self)
        ensures
            r == *self,
    {
        Lint { name: self.name.clone() }
    }
}

/// One recorded diagnostic: the lint it belongs to, its message, and the
/// span it is anchored at.
#[derive(Debug)]
pub struct Diagnostic {
    pub lint: Lint,
    pub msg: String,
    pub span: Span,
}

/// A reference that owns a span: either a node id, or the raw span id a
/// node stores.
#[derive(Clone, Copy, Debug, PartialEq, Eq, Structural)]
pub enum SpanOwner {
    Item(ItemId),
    SpecificSpan(SpanId),
}

/// What a span-owning reference resolves to in a table of resolved spans.
pub open spec fn lookup_span(s: Seq<(SpanOwner, Span)>, owner: SpanOwner) -> Option<Span>
    decreases s.len(),
{
    if s.len() == 0 {
        None
    } else if s[0].0 == owner {
        Some(s[0].1)
    } else {
        lookup_span(s.drop_first(), owner)
    }
}

/// What a span maps to in a table of source snippets.
pub open spec fn lookup_snippet(s: Seq<(Span, Seq<char>)>, span: Span) -> Option<Seq<char>>
    decreases s.len(),
{
    if s.len() == 0 {
        None
    } else if s[0].0 == span {
        Some(s[0].1)
    } else {
        lookup_snippet(s.drop_first(), span)
    }
}

proof fn lemma_lookup_span_skip(s: Seq<(SpanOwner, Span)>, owner: SpanOwner, k: int)
    requires
        0 <= k <= s.len(),
        forall|j: int| 0 <= j < k ==> (#[trigger] s[j]).0 != owner,
    ensures
        lookup_span(s, owner) == lookup_span(s.skip(k), owner),
    decreases k,
{
    if k > 0 {
        assert(s.skip(k - 1).drop_first() =~= s.skip(k));
        lemma_lookup_span_skip(s, owner, k - 1);
        assert(s.skip(k - 1)[0] == s[k - 1]);
    } else {
        assert(s.skip(0) =~= s);
    }
}

proof fn lemma_lookup_snippet_skip(s: Seq<(Span, Seq<char>)>, span: Span, k: int)
    requires
        0 <= k <= s.len(),
        forall|j: int| 0 <= j < k ==> (#[trigger] s[j]).0 != span,
    ensures
        lookup_snippet(s, span) == lookup_snippet(s.skip(k), span),
    decreases k,
{
    if k > 0 {
        assert(s.skip(k - 1).drop_first() =~= s.skip(k));
        lemma_lookup_snippet_skip(s, span, k - 1);
        assert(s.skip(k - 1)[0] == s[k - 1]);
    } else {
        assert(s.skip(0) =~= s);
    }
}

/// The driver's side of the boundary: the resolved tables one live session
/// exposes to plugin code, and the diagnostics recorded so far.
#[derive(Debug)]
pub struct DriverCallbacks {
    /// What each span-owning reference the session knows resolves to.
    pub spans: Vec<(SpanOwner, Span)>,
    /// The source text available for spans; synthetic spans are absent.
    pub snippets: Vec<(Span, String)>,
    /// The session's symbol table, indexed by symbol id.
    pub symbols: Vec<String>,
    /// Every diagnostic emitted through this session so far.
    pub diags: Vec<Diagnostic>,
}

impl DriverCallbacks {
    /// The view of the snippet table with its text as character sequences.
    pub open spec fn snippets_view(self) -> Seq<(Span, Seq<char>)> {
        self.snippets@.map_values(|p: (Span, String)| (p.0, p.1@))
    }

    /// Records a diagnostic anchored at `span`.
    pub fn call_emit_lint(&mut self, lint: &Lint, msg: &str, span: &Span)
        ensures
            final(self).spans == old(self).spans,
            final(self).snippets == old(self).snippets,
            final(self).symbols == old(self).symbols,
            final(self).diags@.len() == old(self).diags@.len() + 1,
            forall|i: int|
                0 <= i < old(self).diags@.len() ==> final(self).diags@[i] == old(self).diags@[i],
            final(self).diags@.last().lint == *lint,
            final(self).diags@.last().msg@ == msg@,
            final(self).diags@.last().span == *span,
    {
        let d = Diagnostic { lint: lint.clone(), msg: msg.to_owned(), span: *span };
        self.diags.push(d);
    }

    /// Resolves a span-owning reference to the span it covers.
    pub fn call_get_span(&self, span_owner: &SpanOwner) -> (r: Span)
        requires
            lookup_span(self.spans@, *span_owner) is Some,
        ensures
            Some(r) == lookup_span(self.spans@, *span_owner),
    {
        let n = self.spans.len();
        let mut i: usize = 0;
        while i < n
            invariant
                n == self.spans@.len(),
                0 <= i <= n,
                forall|j: int| 0 <= j < i ==> (#[trigger] self.spans@[j]).0 != *span_owner,
                lookup_span(self.spans@, *span_owner) is Some,
            decreases n - i,
        {
            let (owner, span) = self.spans[i];
            if owner == *span_owner {
                proof {
                    lemma_lookup_span_skip(self.spans@, *span_owner, i as int);
                    assert(self.spans@.skip(i as int)[0] == self.spans@[i as int]);
                }
                return span;
            }
            i += 1;
        }
        proof {
            lemma_lookup_span_skip(self.spans@, *span_owner, n as int);
            assert(self.spans@.skip(n as int).len() == 0);
        }
        unreached()
    }

    /// Hands out the source text under a span, if any is available.
    pub fn call_span_snippet(&self, span: &Span) -> (r: Option<String>)
        ensures
            match r {
                Some(text) => lookup_snippet(self.snippets_view(), *span) == Some(text@),
                None => lookup_snippet(self.snippets_view(), *span) is None,
            },
    {
        let n = self.snippets.len();
        let mut i: usize = 0;
        while i < n
            invariant
                n == self.snippets@.len(),
                0 <= i <= n,
                forall|j: int| 0 <= j < i ==> (#[trigger] self.snippets_view()[j]).0 != *span,
            decreases n - i,
        {
            assert(self.snippets_view()[i as int].0 == self.snippets@[i as int].0);
            let hit = {
                let entry = &self.snippets[i];
                entry.0 == *span
            };
            if hit {
                proof {
                    lemma_lookup_snippet_skip(self.snippets_view(), *span, i as int);
                    assert(self.snippets_view().skip(i as int)[0] == self.snippets_view()[i as int]);
                }
                return Some(self.snippets[i].1.clone());
            }
            i += 1;
        }
        proof {
            lemma_lookup_snippet_skip(self.snippets_view(), *span, n as int);
            assert(self.snippets_view().skip(n as int).len() == 0);
        }
        None
    }

    /// Resolves a symbol id to its text.
    pub fn call_symbol_str(&self, sym: SymbolId) -> (r: String)
        requires
            (sym.index as int) < self.symbols@.len(),
        ensures
            r@ == self.symbols@[sym.index as int]@,
    {
        self.symbols[sym.index as usize].clone()
    }
}

/// The opaque capability handle plugin code calls back into the live
/// session through.  One context exists per pass and dies with it.
#[derive(Debug)]
pub struct AstContext {
    pub driver: DriverCallbacks,
}

impl AstContext {
    pub fn new(driver: DriverCallbacks) -> (r: Self)
        ensures
            r.driver == driver,
    {
        AstContext { driver }
    }

    /// Whether this pass can resolve the given span-owning reference.
    pub open spec fn resolves(self, owner: SpanOwner) -> bool {
        lookup_span(self.driver.spans@, owner) is Some
    }

    /// The span the given reference resolves to in this pass.
    pub open spec fn resolved(self, owner: SpanOwner) -> Span {
        lookup_span(self.driver.spans@, owner)->Some_0
    }

    /// Emits a lint at the current node with the given message and span.
    pub fn emit_lint(&mut self, lint: &Lint, msg: &str, span: &Span)
        ensures
            final(self).driver.spans == old(self).driver.spans,
            final(self).driver.snippets == old(self).driver.snippets,
            final(self).driver.symbols == old(self).driver.symbols,
            final(self).driver.diags@.len() == old(self).driver.diags@.len() + 1,
            forall|i: int|
                0 <= i < old(self).driver.diags@.len() ==> final(self).driver.diags@[i] == old(
                    self,
                ).driver.diags@[i],
            final(self).driver.diags@.last().lint == *lint,
            final(self).driver.diags@.last().msg@ == msg@,
            final(self).driver.diags@.last().span == *span,
    {
        self.driver.call_emit_lint(lint, msg, span);
    }

    /// The source text under a span, if the session has any.
    pub fn span_snipped(&self, span: &Span) -> (r: Option<String>)
        ensures
            match r {
                Some(text) => lookup_snippet(self.driver.snippets_view(), *span) == Some(text@),
                None => lookup_snippet(self.driver.snippets_view(), *span) is None,
            },
    {
        self.driver.call_span_snippet(span)
    }

    /// Resolves a span-owning reference to the span it covers.
    pub fn get_span(&self, span_owner: &SpanOwner) -> (r: Span)
        requires
            self.resolves(*span_owner),
        ensures
            r == self.resolved(*span_owner),
    {
        self.driver.call_get_span(span_owner)
    }

    /// Resolves a symbol id to its text.
    pub fn symbol_str(&self, sym: SymbolId) -> (r: String)
        requires
            (sym.index as int) < self.driver.symbols@.len(),
        ensures
            r@ == self.driver.symbols@[sym.index as int]@,
    {
        self.driver.call_symbol_str(sym)
    }
}

} // verus!
