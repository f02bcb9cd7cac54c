//! Conversion of host generics and function signatures: parameter lists,
//! bound lists, `where` clauses and callable data, each pinned to a spec
//! level description of exactly which nodes are kept, in which order, and
//! which fatal condition stops the pass first.

use vstd::prelude::*;
use crate::ast::{
    CommonCallableData, GenericParamKind, GenericParams, Lifetime, LifetimeClause, LifetimeParam,
    Parameter, SynTyKind, TraitBound, TyClause, TyParam, TyParamBound, WhereClauseKind,
};
use crate::convert::{
    spec_conv_ty, spec_generic_id, spec_lifetime, spec_span_id, spec_symbol_id, spec_trait_ref,
};
use crate::errors::{ConvError, UnsupportedKind};
use crate::host::{
    HostFnSig, HostGenericBound, HostGenericParam, HostGenericParamKind, HostGenerics,
    HostLayout, HostLifetime, HostParamName, HostTy, HostWherePredicate,
};
use crate::item_convert::ItemConverter;

verus! {

/// Prepends an already-converted prefix to the outcome of converting the
/// remainder of a node list.
pub open spec fn spec_combine_conv<T>(done: Seq<T>, rest: Result<Seq<T>, ConvError>) -> Result<
    Seq<T>,
    ConvError,
> {
    match rest {
        Ok(r) => Ok(done + r),
        Err(e) => Err(e),
    }
}

/// What converting a list of host generic parameters yields: parameters
/// without a plain name are skipped outright; named ones are bridged and
/// then kept only for explicit lifetimes and non-synthetic type parameters.
pub open spec fn spec_conv_params(layout: HostLayout, ps: Seq<HostGenericParam>) -> Result<
    Seq<GenericParamKind>,
    ConvError,
>
    decreases ps.len(),
{
    if ps.len() == 0 {
        Ok(Seq::empty())
    } else {
        let p = ps[0];
        let rest = spec_conv_params(layout, ps.drop_first());
        match p.name {
            HostParamName::Fresh => rest,
            HostParamName::Plain(raw) => match spec_symbol_id(layout, raw) {
                Err(e) => Err(e),
                Ok(name) => match spec_generic_id(layout, p.owner_def_id) {
                    Err(e) => Err(e),
                    Ok(id) => match spec_span_id(layout, p.span) {
                        Err(e) => Err(e),
                        Ok(span) => match p.kind {
                            HostGenericParamKind::Lifetime { explicit: true } => spec_combine_conv(
                                seq![
                                    GenericParamKind::Lifetime(LifetimeParam {
                                        id,
                                        name,
                                        span: Some(span),
                                    }),
                                ],
                                rest,
                            ),
                            HostGenericParamKind::Ty { synthetic: false } => spec_combine_conv(
                                seq![GenericParamKind::Ty(TyParam { span: Some(span), name, id })],
                                rest,
                            ),
                            _ => rest,
                        },
                    },
                },
            },
        }
    }
}

/// Whether every trait bound in a list carries a path that resolved to a
/// trait or trait alias; the host guarantees this for the bounds it hands
/// to the conversion engine.
pub open spec fn bounds_res_wf(bs: Seq<HostGenericBound>) -> bool {
    forall|i: int|
        0 <= i < bs.len() ==> match #[trigger] bs[i] {
            HostGenericBound::Trait { trait_ref, .. } => trait_ref.path.res is Trait
                || trait_ref.path.res is TraitAlias,
            _ => true,
        }
}

/// What converting a list of host type-parameter bounds yields.
pub open spec fn spec_conv_bounds(layout: HostLayout, bs: Seq<HostGenericBound>) -> Result<
    Seq<TyParamBound>,
    ConvError,
>
    decreases bs.len(),
{
    if bs.len() == 0 {
        Ok(Seq::empty())
    } else {
        let rest = spec_conv_bounds(layout, bs.drop_first());
        match bs[0] {
            HostGenericBound::Trait { trait_ref, relaxed, span } => match spec_trait_ref(
                layout,
                trait_ref,
            ) {
                Err(e) => Err(e),
                Ok(tr) => match spec_span_id(layout, span) {
                    Err(e) => Err(e),
                    Ok(sp) => spec_combine_conv(
                        seq![
                            TyParamBound::TraitBound(TraitBound {
                                is_relaxed: relaxed,
                                trait_ref: tr,
                                span: sp,
                            }),
                        ],
                        rest,
                    ),
                },
            },
            HostGenericBound::LangItemTrait => Err(ConvError::NotYetImplemented {
                kind: UnsupportedKind::LangItemTraitBound,
            }),
            HostGenericBound::Outlives(lt) => match spec_lifetime(lt) {
                Some(l) => spec_combine_conv(seq![TyParamBound::Lifetime(l)], rest),
                None => rest,
            },
        }
    }
}

/// What converting the lifetimes bounding a region clause yields:
/// anonymous lifetimes are omitted.
pub open spec fn spec_conv_region_bounds(ls: Seq<HostLifetime>) -> Seq<Lifetime>
    decreases ls.len(),
{
    if ls.len() == 0 {
        Seq::empty()
    } else {
        match spec_lifetime(ls[0]) {
            Some(l) => seq![l] + spec_conv_region_bounds(ls.drop_first()),
            None => spec_conv_region_bounds(ls.drop_first()),
        }
    }
}

/// Whether every predicate's trait bounds are resolution-well-formed.
pub open spec fn preds_res_wf(preds: Seq<HostWherePredicate>) -> bool {
    forall|i: int|
        0 <= i < preds.len() ==> match #[trigger] preds[i] {
            HostWherePredicate::Bound { bounds, .. } => bounds_res_wf(bounds@),
            HostWherePredicate::Region { .. } => true,
        }
}

/// How many clauses converting a predicate list yields, or the first fatal
/// condition met while converting them, in declaration order.
pub open spec fn spec_clauses_res(layout: HostLayout, preds: Seq<HostWherePredicate>) -> Result<
    int,
    ConvError,
>
    decreases preds.len(),
{
    if preds.len() == 0 {
        Ok(0)
    } else {
        match preds[0] {
            HostWherePredicate::Bound { bound_generic_params, bounded_ty, bounds } => {
                match spec_conv_params(layout, bound_generic_params@) {
                    Err(e) => Err(e),
                    Ok(_) => match spec_conv_ty(layout, bounded_ty) {
                        Err(e) => Err(e),
                        Ok(_) => match spec_conv_bounds(layout, bounds@) {
                            Err(e) => Err(e),
                            Ok(_) => match spec_clauses_res(layout, preds.drop_first()) {
                                Err(e) => Err(e),
                                Ok(c) => Ok(c + 1),
                            },
                        },
                    },
                }
            },
            HostWherePredicate::Region { lifetime, .. } => match spec_clauses_res(
                layout,
                preds.drop_first(),
            ) {
                Err(e) => Err(e),
                Ok(c) => if spec_lifetime(lifetime) is Some {
                    Ok(c + 1)
                } else {
                    Ok(c)
                },
            },
        }
    }
}

/// Whether one converted clause is exactly the conversion of one host
/// predicate.
pub open spec fn spec_clause_matches(
    layout: HostLayout,
    pred: HostWherePredicate,
    c: WhereClauseKind,
) -> bool {
    match pred {
        HostWherePredicate::Bound { bound_generic_params, bounded_ty, bounds } => match c {
            WhereClauseKind::Ty(tc) => {
                &&& spec_conv_params(layout, bound_generic_params@) == Ok::<_, ConvError>(
                    tc.params@,
                )
                &&& spec_conv_ty(layout, bounded_ty) == Ok::<_, ConvError>(tc.ty)
                &&& spec_conv_bounds(layout, bounds@) == Ok::<_, ConvError>(tc.bounds@)
            },
            WhereClauseKind::Lifetime(_) => false,
        },
        HostWherePredicate::Region { lifetime, bounds } => match c {
            WhereClauseKind::Lifetime(lc) => {
                &&& spec_lifetime(lifetime) == Some(lc.lifetime)
                &&& lc.bounds@ == spec_conv_region_bounds(bounds@)
            },
            WhereClauseKind::Ty(_) => false,
        },
    }
}

/// Whether a converted clause list is exactly the conversion of a host
/// predicate list: every representable predicate present, in order, and
/// region predicates with an anonymous lifetime absent.
pub open spec fn spec_clauses_match(
    layout: HostLayout,
    preds: Seq<HostWherePredicate>,
    out: Seq<WhereClauseKind>,
) -> bool
    decreases preds.len(),
{
    if preds.len() == 0 {
        out.len() == 0
    } else {
        let skipped = match preds[0] {
            HostWherePredicate::Region { lifetime, .. } => spec_lifetime(lifetime) is None,
            _ => false,
        };
        if skipped {
            spec_clauses_match(layout, preds.drop_first(), out)
        } else {
            &&& out.len() > 0
            &&& spec_clause_matches(layout, preds[0], out[0])
            &&& spec_clauses_match(layout, preds.drop_first(), out.drop_first())
        }
    }
}

/// What converting the inputs of a host function declaration yields: one
/// parameter per input, in declaration order, with its type and span.
pub open spec fn spec_sig_params(layout: HostLayout, inputs: Seq<HostTy>) -> Result<
    Seq<Parameter>,
    ConvError,
>
    decreases inputs.len(),
{
    if inputs.len() == 0 {
        Ok(Seq::empty())
    } else {
        match spec_conv_ty(layout, inputs[0]) {
            Err(e) => Err(e),
            Ok(ty) => match spec_span_id(layout, inputs[0].span) {
                Err(e) => Err(e),
                Ok(span) => spec_combine_conv(
                    seq![Parameter { pat: None, ty: Some(ty), span: Some(span) }],
                    spec_sig_params(layout, inputs.drop_first()),
                ),
            },
        }
    }
}

proof fn lemma_clauses_match_snoc_kept(
    layout: HostLayout,
    preds: Seq<HostWherePredicate>,
    p: HostWherePredicate,
    out: Seq<WhereClauseKind>,
    c: WhereClauseKind,
)
    requires
        spec_clauses_match(layout, preds, out),
        spec_clause_matches(layout, p, c),
    ensures
        spec_clauses_match(layout, preds.push(p), out.push(c)),
    decreases preds.len(),
{
    if preds.len() == 0 {
        assert(preds.push(p).drop_first() =~= Seq::<HostWherePredicate>::empty().push(
            p,
        ).drop_first());
        assert(preds.push(p)[0] == p);
        let skipped0 = match p {
            HostWherePredicate::Region { lifetime, .. } => spec_lifetime(lifetime) is None,
            _ => false,
        };
        assert(!skipped0);
        assert(out.push(c)[0] == c);
        assert(out.push(c).drop_first() =~= out);
        assert(preds.push(p).drop_first() =~= preds);
    } else {
        assert(preds.push(p)[0] == preds[0]);
        assert(preds.push(p).drop_first() =~= preds.drop_first().push(p));
        let skipped = match preds[0] {
            HostWherePredicate::Region { lifetime, .. } => spec_lifetime(lifetime) is None,
            _ => false,
        };
        if skipped {
            lemma_clauses_match_snoc_kept(layout, preds.drop_first(), p, out, c);
        } else {
            assert(out.push(c)[0] == out[0]);
            assert(out.push(c).drop_first() =~= out.drop_first().push(c));
            lemma_clauses_match_snoc_kept(layout, preds.drop_first(), p, out.drop_first(), c);
        }
    }
}

proof fn lemma_clauses_match_snoc_skipped(
    layout: HostLayout,
    preds: Seq<HostWherePredicate>,
    p: HostWherePredicate,
    out: Seq<WhereClauseKind>,
)
    requires
        spec_clauses_match(layout, preds, out),
        p matches HostWherePredicate::Region { lifetime, .. } && spec_lifetime(lifetime) is None,
    ensures
        spec_clauses_match(layout, preds.push(p), out),
    decreases preds.len(),
{
    if preds.len() == 0 {
        assert(preds.push(p)[0] == p);
        assert(preds.push(p).drop_first() =~= preds);
    } else {
        assert(preds.push(p)[0] == preds[0]);
        assert(preds.push(p).drop_first() =~= preds.drop_first().push(p));
        let skipped = match preds[0] {
            HostWherePredicate::Region { lifetime, .. } => spec_lifetime(lifetime) is None,
            _ => false,
        };
        if skipped {
            lemma_clauses_match_snoc_skipped(layout, preds.drop_first(), p, out);
        } else {
            lemma_clauses_match_snoc_skipped(layout, preds.drop_first(), p, out.drop_first());
        }
    }
}

impl ItemConverter {
    /// Converts a list of host generic parameter declarations, keeping the
    /// representable ones in declaration order.
    pub fn conv_generic_params(&self, params: &Vec<HostGenericParam>) -> (r: Result<
        Vec<GenericParamKind>,
        ConvError,
    >)
        ensures
            match r {
                Ok(out) => spec_conv_params(self.cx.layout, params@) == Ok::<_, ConvError>(out@),
                Err(e) => spec_conv_params(self.cx.layout, params@) == Err::<
                    Seq<GenericParamKind>,
                    _,
                >(e),
            },
    {
        let n = params.len();
        let mut out: Vec<GenericParamKind> = Vec::new();
        let mut i: usize = 0;
        proof {
            assert(params@.skip(0) =~= params@);
        }
        while i < n
            invariant
                n == params@.len(),
                0 <= i <= n,
                spec_conv_params(self.cx.layout, params@) == spec_combine_conv(
                    out@,
                    spec_conv_params(self.cx.layout, params@.skip(i as int)),
                ),
            decreases n - i,
        {
            proof {
                assert(params@.skip(i as int)[0] == params@[i as int]);
                assert(params@.skip(i as int).drop_first() =~= params@.skip(i as int + 1));
            }
            let p = params[i];
            match p.name {
                HostParamName::Fresh => {},
                HostParamName::Plain(raw) => {
                    let name = match self.cx.to_symbol_id(raw) {
                        Ok(name) => name,
                        Err(e) => {
                            return Err(e);
                        },
                    };
                    let id = match self.cx.to_generic_id(p.owner_def_id) {
                        Ok(id) => id,
                        Err(e) => {
                            return Err(e);
                        },
                    };
                    let span = match self.cx.to_span_id(p.span) {
                        Ok(span) => span,
                        Err(e) => {
                            return Err(e);
                        },
                    };
                    match p.kind {
                        HostGenericParamKind::Lifetime { explicit } => {
                            if explicit {
                                let elem = GenericParamKind::Lifetime(
                                    LifetimeParam { id, name, span: Some(span) },
                                );
                                proof {
                                    lemma_combine_push(
                                        out@,
                                        elem,
                                        spec_conv_params(
                                            self.cx.layout,
                                            params@.skip(i as int + 1),
                                        ),
                                    );
                                }
                                out.push(elem);
                            }
                        },
                        HostGenericParamKind::Ty { synthetic } => {
                            if !synthetic {
                                let elem = GenericParamKind::Ty(
                                    TyParam { span: Some(span), name, id },
                                );
                                proof {
                                    lemma_combine_push(
                                        out@,
                                        elem,
                                        spec_conv_params(
                                            self.cx.layout,
                                            params@.skip(i as int + 1),
                                        ),
                                    );
                                }
                                out.push(elem);
                            }
                        },
                        HostGenericParamKind::Const => {},
                    }
                },
            }
            i += 1;
        }
        proof {
            assert(params@.skip(n as int).len() == 0);
            assert(out@ + Seq::<GenericParamKind>::empty() =~= out@);
        }
        Ok(out)
    }

    /// Converts a list of host type-parameter bounds, keeping the
    /// representable ones in declaration order.
    pub fn conv_generic_bounds(&self, bounds: &Vec<HostGenericBound>) -> (r: Result<
        Vec<TyParamBound>,
        ConvError,
    >)
        requires
            bounds_res_wf(bounds@),
        ensures
            match r {
                Ok(out) => spec_conv_bounds(self.cx.layout, bounds@) == Ok::<_, ConvError>(out@),
                Err(e) => spec_conv_bounds(self.cx.layout, bounds@) == Err::<
                    Seq<TyParamBound>,
                    _,
                >(e),
            },
    {
        let n = bounds.len();
        let mut out: Vec<TyParamBound> = Vec::new();
        let mut i: usize = 0;
        proof {
            assert(bounds@.skip(0) =~= bounds@);
        }
        while i < n
            invariant
                bounds_res_wf(bounds@),
                n == bounds@.len(),
                0 <= i <= n,
                spec_conv_bounds(self.cx.layout, bounds@) == spec_combine_conv(
                    out@,
                    spec_conv_bounds(self.cx.layout, bounds@.skip(i as int)),
                ),
            decreases n - i,
        {
            proof {
                assert(bounds@.skip(i as int)[0] == bounds@[i as int]);
                assert(bounds@.skip(i as int).drop_first() =~= bounds@.skip(i as int + 1));
            }
            match &bounds[i] {
                HostGenericBound::Trait { trait_ref, relaxed, span } => {
                    let tr = match self.cx.to_trait_ref(trait_ref) {
                        Ok(tr) => tr,
                        Err(e) => {
                            return Err(e);
                        },
                    };
                    let sp = match self.cx.to_span_id(*span) {
                        Ok(sp) => sp,
                        Err(e) => {
                            return Err(e);
                        },
                    };
                    let elem = TyParamBound::TraitBound(
                        TraitBound { is_relaxed: *relaxed, trait_ref: tr, span: sp },
                    );
                    proof {
                        lemma_combine_push(
                            out@,
                            elem,
                            spec_conv_bounds(self.cx.layout, bounds@.skip(i as int + 1)),
                        );
                    }
                    out.push(elem);
                },
                HostGenericBound::LangItemTrait => {
                    return Err(ConvError::NotYetImplemented {
                        kind: UnsupportedKind::LangItemTraitBound,
                    });
                },
                HostGenericBound::Outlives(lt) => {
                    match self.cx.to_lifetime(*lt) {
                        Some(l) => {
                            let elem = TyParamBound::Lifetime(l);
                            proof {
                                lemma_combine_push(
                                    out@,
                                    elem,
                                    spec_conv_bounds(self.cx.layout, bounds@.skip(i as int + 1)),
                                );
                            }
                            out.push(elem);
                        },
                        None => {},
                    }
                },
            }
            i += 1;
        }
        proof {
            assert(bounds@.skip(n as int).len() == 0);
            assert(out@ + Seq::<TyParamBound>::empty() =~= out@);
        }
        Ok(out)
    }

    /// Converts the lifetimes bounding a region clause.
    fn conv_region_bounds(&self, ls: &Vec<HostLifetime>) -> (r: Vec<Lifetime>)
        ensures
            r@ == spec_conv_region_bounds(ls@),
    {
        let n = ls.len();
        let mut out: Vec<Lifetime> = Vec::new();
        let mut i: usize = 0;
        proof {
            assert(ls@.skip(0) =~= ls@);
        }
        while i < n
            invariant
                n == ls@.len(),
                0 <= i <= n,
                spec_conv_region_bounds(ls@) == out@ + spec_conv_region_bounds(
                    ls@.skip(i as int),
                ),
            decreases n - i,
        {
            proof {
                assert(ls@.skip(i as int)[0] == ls@[i as int]);
                assert(ls@.skip(i as int).drop_first() =~= ls@.skip(i as int + 1));
            }
            match self.cx.to_lifetime(ls[i]) {
                Some(l) => {
                    proof {
                        assert(out@ + (seq![l] + spec_conv_region_bounds(ls@.skip(i as int + 1)))
                            =~= out@.push(l) + spec_conv_region_bounds(ls@.skip(i as int + 1)));
                    }
                    out.push(l);
                },
                None => {},
            }
            i += 1;
        }
        proof {
            assert(spec_conv_region_bounds(ls@.skip(n as int)) =~= Seq::<Lifetime>::empty());
            assert(out@ + Seq::<Lifetime>::empty() =~= out@);
        }
        out
    }

    /// Converts the generics attached to a host item: its `where` clauses
    /// in declaration order, then its parameter declarations.
    pub fn conv_generic(&self, generics: &HostGenerics) -> (r: Result<GenericParams, ConvError>)
        requires
            preds_res_wf(generics.predicates@),
        ensures
            match r {
                Ok(g) => {
                    &&& spec_conv_params(self.cx.layout, generics.params@) == Ok::<_, ConvError>(
                        g.params@,
                    )
                    &&& spec_clauses_res(self.cx.layout, generics.predicates@) == Ok::<
                        _,
                        ConvError,
                    >(g.clauses@.len() as int)
                    &&& spec_clauses_match(self.cx.layout, generics.predicates@, g.clauses@)
                },
                Err(e) => spec_clauses_res(self.cx.layout, generics.predicates@) == Err::<int, _>(
                    e,
                ) || (spec_clauses_res(self.cx.layout, generics.predicates@) is Ok
                    && spec_conv_params(self.cx.layout, generics.params@) == Err::<
                    Seq<GenericParamKind>,
                    _,
                >(e)),
            },
    {
        let n = generics.predicates.len();
        let mut clauses: Vec<WhereClauseKind> = Vec::new();
        let mut i: usize = 0;
        proof {
            assert(generics.predicates@.skip(0) =~= generics.predicates@);
            assert(generics.predicates@.take(0) =~= Seq::<HostWherePredicate>::empty());
        }
        while i < n
            invariant
                preds_res_wf(generics.predicates@),
                n == generics.predicates@.len(),
                0 <= i <= n,
                spec_clauses_res(self.cx.layout, generics.predicates@) == (match spec_clauses_res(
                    self.cx.layout,
                    generics.predicates@.skip(i as int),
                ) {
                    Ok(c) => Ok::<int, ConvError>(clauses@.len() + c),
                    Err(e) => Err::<int, ConvError>(e),
                }),
                spec_clauses_match(
                    self.cx.layout,
                    generics.predicates@.take(i as int),
                    clauses@,
                ),
            decreases n - i,
        {
            proof {
                assert(generics.predicates@.skip(i as int)[0] == generics.predicates@[i as int]);
                assert(generics.predicates@.skip(i as int).drop_first()
                    =~= generics.predicates@.skip(i as int + 1));
                assert(generics.predicates@.take(i as int + 1) =~= generics.predicates@.take(
                    i as int,
                ).push(generics.predicates@[i as int]));
                assert(bounds_res_wf_of_pred(generics.predicates@[i as int]));
            }
            match &generics.predicates[i] {
                HostWherePredicate::Bound { bound_generic_params, bounded_ty, bounds } => {
                    let params = match self.conv_generic_params(bound_generic_params) {
                        Ok(ps) => ps,
                        Err(e) => {
                            return Err(e);
                        },
                    };
                    let ty = match self.conv_ty(bounded_ty) {
                        Ok(t) => t,
                        Err(e) => {
                            return Err(e);
                        },
                    };
                    let bs = match self.conv_generic_bounds(bounds) {
                        Ok(bs) => bs,
                        Err(e) => {
                            return Err(e);
                        },
                    };
                    let clause = WhereClauseKind::Ty(TyClause { params, ty, bounds: bs });
                    proof {
                        lemma_clauses_match_snoc_kept(
                            self.cx.layout,
                            generics.predicates@.take(i as int),
                            generics.predicates@[i as int],
                            clauses@,
                            clause,
                        );
                    }
                    clauses.push(clause);
                },
                HostWherePredicate::Region { lifetime, bounds } => {
                    match self.cx.to_lifetime(*lifetime) {
                        Some(l) => {
                            let bs = self.conv_region_bounds(bounds);
                            let clause = WhereClauseKind::Lifetime(
                                LifetimeClause { lifetime: l, bounds: bs },
                            );
                            proof {
                                lemma_clauses_match_snoc_kept(
                                    self.cx.layout,
                                    generics.predicates@.take(i as int),
                                    generics.predicates@[i as int],
                                    clauses@,
                                    clause,
                                );
                            }
                            clauses.push(clause);
                        },
                        None => {
                            proof {
                                lemma_clauses_match_snoc_skipped(
                                    self.cx.layout,
                                    generics.predicates@.take(i as int),
                                    generics.predicates@[i as int],
                                    clauses@,
                                );
                            }
                        },
                    }
                },
            }
            i += 1;
        }
        proof {
            assert(generics.predicates@.skip(n as int).len() == 0);
            assert(generics.predicates@.take(n as int) =~= generics.predicates@);
        }
        let params = match self.conv_generic_params(&generics.params) {
            Ok(ps) => ps,
            Err(e) => {
                return Err(e);
            },
        };
        Ok(GenericParams::new(params, clauses))
    }

    /// Converts a host function signature into portable callable data.
    pub fn conv_fn_sig(&self, fn_sig: &HostFnSig, is_extern: bool) -> (r: Result<
        CommonCallableData,
        ConvError,
    >)
        ensures
            match r {
                Ok(c) => {
                    &&& spec_sig_params(self.cx.layout, fn_sig.decl.inputs@) == Ok::<_, ConvError>(
                        c.params@,
                    )
                    &&& match fn_sig.decl.output {
                        Some(t) => spec_conv_ty(self.cx.layout, t) matches Ok(tt) && c.return_ty
                            == Some(tt),
                        None => c.return_ty is None,
                    }
                    &&& c.is_const == fn_sig.header.is_const
                    &&& c.is_async == fn_sig.header.is_async
                    &&& c.is_unsafe == fn_sig.header.is_unsafe
                    &&& c.is_extern == is_extern
                    &&& c.abi == crate::convert::spec_abi(fn_sig.header.abi)
                    &&& c.has_self == fn_sig.decl.implicit_self
                },
                Err(e) => spec_sig_params(self.cx.layout, fn_sig.decl.inputs@) == Err::<
                    Seq<Parameter>,
                    _,
                >(e) || (spec_sig_params(self.cx.layout, fn_sig.decl.inputs@) is Ok && (
                fn_sig.decl.output matches Some(t) && spec_conv_ty(self.cx.layout, t) == Err::<
                    SynTyKind,
                    _,
                >(e))),
            },
    {
        let n = fn_sig.decl.inputs.len();
        let mut params: Vec<Parameter> = Vec::new();
        let mut i: usize = 0;
        proof {
            assert(fn_sig.decl.inputs@.skip(0) =~= fn_sig.decl.inputs@);
        }
        while i < n
            invariant
                n == fn_sig.decl.inputs@.len(),
                0 <= i <= n,
                spec_sig_params(self.cx.layout, fn_sig.decl.inputs@) == spec_combine_conv(
                    params@,
                    spec_sig_params(self.cx.layout, fn_sig.decl.inputs@.skip(i as int)),
                ),
            decreases n - i,
        {
            proof {
                assert(fn_sig.decl.inputs@.skip(i as int)[0] == fn_sig.decl.inputs@[i as int]);
                assert(fn_sig.decl.inputs@.skip(i as int).drop_first()
                    =~= fn_sig.decl.inputs@.skip(i as int + 1));
            }
            let input = fn_sig.decl.inputs[i];
            let ty = match self.conv_ty(&input) {
                Ok(t) => t,
                Err(e) => {
                    return Err(e);
                },
            };
            let span = match self.cx.to_span_id(input.span) {
                Ok(s) => s,
                Err(e) => {
                    return Err(e);
                },
            };
            let elem = Parameter { pat: None, ty: Some(ty), span: Some(span) };
            proof {
                lemma_combine_push(
                    params@,
                    elem,
                    spec_sig_params(self.cx.layout, fn_sig.decl.inputs@.skip(i as int + 1)),
                );
            }
            params.push(elem);
            i += 1;
        }
        proof {
            assert(fn_sig.decl.inputs@.skip(n as int).len() == 0);
            assert(params@ + Seq::<Parameter>::empty() =~= params@);
        }
        let return_ty = match &fn_sig.decl.output {
            Some(t) => match self.conv_ty(t) {
                Ok(tt) => Some(tt),
                Err(e) => {
                    return Err(e);
                },
            },
            None => None,
        };
        Ok(CommonCallableData {
            is_const: fn_sig.header.is_const,
            is_async: fn_sig.header.is_async,
            is_unsafe: fn_sig.header.is_unsafe,
            is_extern,
            abi: self.cx.to_abi(fn_sig.header.abi),
            has_self: fn_sig.decl.implicit_self,
            params,
            return_ty,
        })
    }

    /// Converts a host syntactic type through the pass context.
    pub fn conv_ty(&self, ty: &HostTy) -> (r: Result<SynTyKind, ConvError>)
        ensures
            r == spec_conv_ty(self.cx.layout, *ty),
    {
        self.cx.to_syn_ty(ty)
    }
}

/// Whether no bound in a list is a language-item trait bound, the one
/// bound kind with no portable representation.
pub open spec fn bounds_lang_free(bs: Seq<HostGenericBound>) -> bool {
    forall|i: int| 0 <= i < bs.len() ==> !((#[trigger] bs[i]) is LangItemTrait)
}

/// Whether every predicate's bound list is free of language-item trait
/// bounds.
pub open spec fn preds_lang_free(preds: Seq<HostWherePredicate>) -> bool {
    forall|i: int|
        0 <= i < preds.len() ==> match #[trigger] preds[i] {
            HostWherePredicate::Bound { bounds, .. } => bounds_lang_free(bounds@),
            HostWherePredicate::Region { .. } => true,
        }
}

/// Under a matching layout, converting path segments cannot fail.
pub proof fn lemma_path_segments_ok(layout: HostLayout, segs: Seq<crate::host::HostPathSegment>)
    requires
        layout.symbol_bytes == crate::convert::SYMBOL_ID_BYTES,
    ensures
        crate::convert::spec_path_segments(layout, segs) is Ok,
    decreases segs.len(),
{
    if segs.len() > 0 {
        lemma_path_segments_ok(layout, segs.drop_first());
    }
}

/// Under a matching layout, converting generic parameters cannot fail.
pub proof fn lemma_conv_params_ok(layout: HostLayout, ps: Seq<HostGenericParam>)
    requires
        layout.symbol_bytes == crate::convert::SYMBOL_ID_BYTES,
        layout.def_id_bytes == crate::convert::ITEM_ID_BYTES,
        layout.span_bytes == crate::convert::SPAN_ID_BYTES,
    ensures
        spec_conv_params(layout, ps) is Ok,
    decreases ps.len(),
{
    if ps.len() > 0 {
        lemma_conv_params_ok(layout, ps.drop_first());
    }
}

/// Under a matching layout, converting a resolution-well-formed bound
/// list free of language-item bounds cannot fail.
pub proof fn lemma_conv_bounds_ok(layout: HostLayout, bs: Seq<HostGenericBound>)
    requires
        bounds_res_wf(bs),
        bounds_lang_free(bs),
        layout.def_id_bytes == crate::convert::ITEM_ID_BYTES,
        layout.span_bytes == crate::convert::SPAN_ID_BYTES,
    ensures
        spec_conv_bounds(layout, bs) is Ok,
    decreases bs.len(),
{
    if bs.len() > 0 {
        assert(!(bs[0] is LangItemTrait));
        assert forall|i: int| 0 <= i < bs.drop_first().len() implies !((#[trigger] bs.drop_first()[
            i]) is LangItemTrait) by {
            assert(bs.drop_first()[i] == bs[i + 1]);
        }
        assert forall|i: int|
            0 <= i < bs.drop_first().len() implies match #[trigger] bs.drop_first()[i] {
                HostGenericBound::Trait { trait_ref, .. } => trait_ref.path.res is Trait
                    || trait_ref.path.res is TraitAlias,
                _ => true,
            } by {
            assert(bs.drop_first()[i] == bs[i + 1]);
        }
        lemma_conv_bounds_ok(layout, bs.drop_first());
    }
}

/// Under a matching layout, converting a well-formed predicate list free
/// of language-item bounds cannot fail.
pub proof fn lemma_clauses_res_ok(layout: HostLayout, preds: Seq<HostWherePredicate>)
    requires
        preds_res_wf(preds),
        preds_lang_free(preds),
        layout.symbol_bytes == crate::convert::SYMBOL_ID_BYTES,
        layout.def_id_bytes == crate::convert::ITEM_ID_BYTES,
        layout.span_bytes == crate::convert::SPAN_ID_BYTES,
    ensures
        spec_clauses_res(layout, preds) is Ok,
    decreases preds.len(),
{
    if preds.len() > 0 {
        assert forall|i: int|
            0 <= i < preds.drop_first().len() implies match #[trigger] preds.drop_first()[i] {
                HostWherePredicate::Bound { bounds, .. } => bounds_res_wf(bounds@),
                HostWherePredicate::Region { .. } => true,
            } by {
            assert(preds.drop_first()[i] == preds[i + 1]);
        }
        assert forall|i: int|
            0 <= i < preds.drop_first().len() implies match #[trigger] preds.drop_first()[i] {
                HostWherePredicate::Bound { bounds, .. } => bounds_lang_free(bounds@),
                HostWherePredicate::Region { .. } => true,
            } by {
            assert(preds.drop_first()[i] == preds[i + 1]);
        }
        lemma_clauses_res_ok(layout, preds.drop_first());
        match preds[0] {
            HostWherePredicate::Bound { bound_generic_params, bounded_ty, bounds } => {
                lemma_conv_params_ok(layout, bound_generic_params@);
                lemma_conv_bounds_ok(layout, bounds@);
            },
            HostWherePredicate::Region { .. } => {},
        }
    }
}

/// Under a matching layout, converting a signature's inputs cannot fail.
pub proof fn lemma_sig_params_ok(layout: HostLayout, inputs: Seq<HostTy>)
    requires
        layout.span_bytes == crate::convert::SPAN_ID_BYTES,
    ensures
        spec_sig_params(layout, inputs) is Ok,
    decreases inputs.len(),
{
    if inputs.len() > 0 {
        lemma_sig_params_ok(layout, inputs.drop_first());
    }
}

/// The trait bounds of one predicate are resolution-well-formed.
pub open spec fn bounds_res_wf_of_pred(pred: HostWherePredicate) -> bool {
    match pred {
        HostWherePredicate::Bound { bounds, .. } => bounds_res_wf(bounds@),
        HostWherePredicate::Region { .. } => true,
    }
}

/// Pushing a converted element onto the done prefix commutes with
/// prepending it to the remainder.
proof fn lemma_combine_push<T>(done: Seq<T>, elem: T, rest: Result<Seq<T>, ConvError>)
    ensures
        spec_combine_conv(done, spec_combine_conv(seq![elem], rest)) == spec_combine_conv(
            done.push(elem),
            rest,
        ),
{
    match rest {
        Ok(r) => {
            assert(done + (seq![elem] + r) =~= done.push(elem) + r);
        },
        Err(_) => {},
    }
}

} // verus!
