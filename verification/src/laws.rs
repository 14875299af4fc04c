//! What holds of rewriting, substitution and shifting.

use vstd::prelude::*;

use crate::arity::has_arity;
use crate::binders::{binds_all, Binders};
use crate::db::HirDatabase;
use crate::ids::{AssocContainerId, GenericDefId, TypeAliasId};
use crate::model::{
    all_inside, all_predicate, all_predicates, all_ty, all_tys, and_then, at_any_depth,
    at_every_depth, can_shift, each, enter_binder, fixed_by, free_below, map_predicate,
    map_predicates,
    map_ty, map_tys, no_bound_var, predicate_nodes, predicates_nodes, refers_to_outer,
    rewrites_bound_vars, same_head, shift_fn, subst_fn, subst_node, ty_nodes, tys_nodes,
};
use crate::ty::{
    ApplicationTyView, GenericPredicate, GenericPredicateView, ProjectionTyView, TraitRefView,
    Ty, TyView,
};
use crate::walk::{all_types, lemma_tys_nodes_prefix, map_types, nodes_of, HasTypes};

verus! {

/// The nodes inside a type, told by the types inside it (the type alone),
/// are those that [`ty_nodes`] lists.
pub proof fn lemma_ty_nodes(t: TyView)
    ensures
        nodes_of::<Ty>(t) == ty_nodes(t),
{
    assert(tys_nodes(seq![t], 0) =~= Seq::empty());
    assert(tys_nodes(seq![t], 1) =~= ty_nodes(t));
}

/// A type rewritten through the types inside it (the type alone) is what
/// [`map_ty`] makes of it, and a property holds of every node inside it
/// just when [`all_ty`] says so.
pub proof fn lemma_ty_types(
    t: TyView,
    g: spec_fn(TyView, usize) -> TyView,
    p: spec_fn(TyView, usize) -> bool,
    binders: usize,
)
    ensures
        map_types::<Ty>(t, g, binders) == map_ty(t, g, binders),
        all_types::<Ty>(t, p, binders) == all_ty(t, p, binders),
{
    assert(seq![t][0] == t);
}

/// The nodes inside a predicate, told by the types inside it, are those
/// that [`predicate_nodes`] lists.
pub proof fn lemma_predicate_nodes(p: GenericPredicateView)
    ensures
        nodes_of::<GenericPredicate>(p) == predicate_nodes(p),
{
    if let GenericPredicateView::Projection(pp) = p {
        let params = pp.projection_ty.parameters;
        lemma_tys_nodes_prefix(params, GenericPredicate::types(p), params.len());
    }
}

/// A predicate rewritten through the types inside it is what
/// [`map_predicate`] makes of it, and a property holds of every node
/// inside it just when [`all_predicate`] says so.
pub proof fn lemma_predicate_types(
    pred: GenericPredicateView,
    g: spec_fn(TyView, usize) -> TyView,
    p: spec_fn(TyView, usize) -> bool,
    binders: usize,
)
    ensures
        map_types::<GenericPredicate>(pred, g, binders) == map_predicate(pred, g, binders),
        all_types::<GenericPredicate>(pred, p, binders) == all_predicate(pred, p, binders),
{
    if let GenericPredicateView::Projection(pp) = pred {
        let params = pp.projection_ty.parameters;
        let tys = GenericPredicate::types(pred);
        let mapped = map_tys(tys, g, binders);
        assert(mapped.drop_last() =~= map_tys(params, g, binders));
        assert(tys.drop_last() =~= params);
        if all_tys(tys, p, binders) {
            assert forall|i: int| 0 <= i < params.len() implies all_ty(
                #[trigger] params[i],
                p,
                binders,
            ) by {
                assert(tys[i] == params[i]);
            }
            assert(tys[params.len() as int] == pp.ty);
        }
        if all_predicate(pred, p, binders) {
            assert forall|i: int| 0 <= i < tys.len() implies all_ty(#[trigger] tys[i], p, binders) by {
                if i < params.len() {
                    assert(tys[i] == params[i]);
                }
            }
        }
    }
}

/// A rewrite that leaves every node of a type as it is leaves the type as
/// it is.
pub proof fn lemma_map_ty_fixed(t: TyView, g: spec_fn(TyView, usize) -> TyView, binders: usize)
    requires
        all_ty(t, fixed_by(g), binders),
    ensures
        map_ty(t, g, binders) == t,
    decreases t,
{
    match t {
        TyView::Apply(a) => {
            lemma_map_tys_fixed(a.parameters, g, binders);
        },
        TyView::Projection(p) => {
            lemma_map_tys_fixed(p.parameters, g, binders);
        },
        TyView::Dyn(predicates) => {
            lemma_map_predicates_fixed(predicates, g, enter_binder(binders));
        },
        TyView::Opaque(predicates) => {
            lemma_map_predicates_fixed(predicates, g, enter_binder(binders));
        },
        TyView::Placeholder(_) | TyView::Bound(_) | TyView::Infer(_) | TyView::Unknown => {},
    }
}

/// The same of a list of types.
pub proof fn lemma_map_tys_fixed(s: Seq<TyView>, g: spec_fn(TyView, usize) -> TyView, binders: usize)
    requires
        all_tys(s, fixed_by(g), binders),
    ensures
        map_tys(s, g, binders) == s,
    decreases s,
{
    assert forall|i: int| 0 <= i < s.len() implies map_ty(s[i], g, binders) == s[i] by {
        lemma_map_ty_fixed(s[i], g, binders);
    }
    assert(map_tys(s, g, binders) =~= s);
}

/// The same of a predicate.
pub proof fn lemma_map_predicate_fixed(
    p: GenericPredicateView,
    g: spec_fn(TyView, usize) -> TyView,
    binders: usize,
)
    requires
        all_predicate(p, fixed_by(g), binders),
    ensures
        map_predicate(p, g, binders) == p,
    decreases p,
{
    match p {
        GenericPredicateView::Implemented(tr) => {
            lemma_map_tys_fixed(tr.substs, g, binders);
        },
        GenericPredicateView::Projection(pp) => {
            lemma_map_tys_fixed(pp.projection_ty.parameters, g, binders);
            lemma_map_ty_fixed(pp.ty, g, binders);
        },
        GenericPredicateView::Error => {},
    }
}

/// The same of a list of predicates.
pub proof fn lemma_map_predicates_fixed(
    s: Seq<GenericPredicateView>,
    g: spec_fn(TyView, usize) -> TyView,
    binders: usize,
)
    requires
        all_predicates(s, fixed_by(g), binders),
    ensures
        map_predicates(s, g, binders) == s,
    decreases s,
{
    assert forall|i: int| 0 <= i < s.len() implies map_predicate(s[i], g, binders) == s[i] by {
        lemma_map_predicate_fixed(s[i], g, binders);
    }
    assert(map_predicates(s, g, binders) =~= s);
}

/// Two rewrites one after the other, of which the first changes bound
/// variables only, are one rewrite: that by the two functions one after the
/// other.
pub proof fn lemma_map_ty_twice(
    t: TyView,
    g: spec_fn(TyView, usize) -> TyView,
    h: spec_fn(TyView, usize) -> TyView,
    binders: usize,
)
    requires
        rewrites_bound_vars(g),
    ensures
        map_ty(map_ty(t, g, binders), h, binders) == map_ty(t, and_then(g, h), binders),
    decreases t,
{
    match t {
        TyView::Apply(a) => {
            lemma_map_tys_twice(a.parameters, g, h, binders);
        },
        TyView::Projection(p) => {
            lemma_map_tys_twice(p.parameters, g, h, binders);
        },
        TyView::Dyn(predicates) => {
            lemma_map_predicates_twice(predicates, g, h, enter_binder(binders));
        },
        TyView::Opaque(predicates) => {
            lemma_map_predicates_twice(predicates, g, h, enter_binder(binders));
        },
        TyView::Placeholder(_) | TyView::Bound(_) | TyView::Infer(_) | TyView::Unknown => {},
    }
}

/// The same of a list of types.
pub proof fn lemma_map_tys_twice(
    s: Seq<TyView>,
    g: spec_fn(TyView, usize) -> TyView,
    h: spec_fn(TyView, usize) -> TyView,
    binders: usize,
)
    requires
        rewrites_bound_vars(g),
    ensures
        map_tys(map_tys(s, g, binders), h, binders) == map_tys(s, and_then(g, h), binders),
    decreases s,
{
    assert forall|i: int| 0 <= i < s.len() implies map_ty(map_ty(s[i], g, binders), h, binders)
        == map_ty(s[i], and_then(g, h), binders) by {
        lemma_map_ty_twice(s[i], g, h, binders);
    }
    assert(map_tys(map_tys(s, g, binders), h, binders) =~= map_tys(s, and_then(g, h), binders));
}

/// The same of a predicate.
pub proof fn lemma_map_predicate_twice(
    p: GenericPredicateView,
    g: spec_fn(TyView, usize) -> TyView,
    h: spec_fn(TyView, usize) -> TyView,
    binders: usize,
)
    requires
        rewrites_bound_vars(g),
    ensures
        map_predicate(map_predicate(p, g, binders), h, binders) == map_predicate(
            p,
            and_then(g, h),
            binders,
        ),
    decreases p,
{
    match p {
        GenericPredicateView::Implemented(tr) => {
            lemma_map_tys_twice(tr.substs, g, h, binders);
        },
        GenericPredicateView::Projection(pp) => {
            lemma_map_tys_twice(pp.projection_ty.parameters, g, h, binders);
            lemma_map_ty_twice(pp.ty, g, h, binders);
        },
        GenericPredicateView::Error => {},
    }
}

/// The same of a list of predicates.
pub proof fn lemma_map_predicates_twice(
    s: Seq<GenericPredicateView>,
    g: spec_fn(TyView, usize) -> TyView,
    h: spec_fn(TyView, usize) -> TyView,
    binders: usize,
)
    requires
        rewrites_bound_vars(g),
    ensures
        map_predicates(map_predicates(s, g, binders), h, binders) == map_predicates(
            s,
            and_then(g, h),
            binders,
        ),
    decreases s,
{
    assert forall|i: int| 0 <= i < s.len() implies map_predicate(
        map_predicate(s[i], g, binders),
        h,
        binders,
    ) == map_predicate(s[i], and_then(g, h), binders) by {
        lemma_map_predicate_twice(s[i], g, h, binders);
    }
    assert(map_predicates(map_predicates(s, g, binders), h, binders) =~= map_predicates(
        s,
        and_then(g, h),
        binders,
    ));
}

/// Where `p` holds of every node of a type, and `q` holds of a node at a
/// depth where `p` holds of it at that depth or a smaller one, `q` holds of
/// every node of the type when the type stands deeper, or as deep.
pub proof fn lemma_all_ty_implies(
    t: TyView,
    p: spec_fn(TyView, usize) -> bool,
    q: spec_fn(TyView, usize) -> bool,
    binders: usize,
    other: usize,
)
    requires
        all_ty(t, p, binders),
        binders <= other,
        forall|x: TyView, d: usize, e: usize| d <= e && #[trigger] p(x, d) ==> #[trigger] q(x, e),
    ensures
        all_ty(t, q, other),
    decreases t,
{
    assert(p(t, binders));
    match t {
        TyView::Apply(a) => {
            lemma_all_tys_implies(a.parameters, p, q, binders, other);
        },
        TyView::Projection(pt) => {
            lemma_all_tys_implies(pt.parameters, p, q, binders, other);
        },
        TyView::Dyn(predicates) => {
            lemma_all_predicates_implies(
                predicates,
                p,
                q,
                enter_binder(binders),
                enter_binder(other),
            );
        },
        TyView::Opaque(predicates) => {
            lemma_all_predicates_implies(
                predicates,
                p,
                q,
                enter_binder(binders),
                enter_binder(other),
            );
        },
        TyView::Placeholder(_) | TyView::Bound(_) | TyView::Infer(_) | TyView::Unknown => {},
    }
}

/// The same of a list of types.
pub proof fn lemma_all_tys_implies(
    s: Seq<TyView>,
    p: spec_fn(TyView, usize) -> bool,
    q: spec_fn(TyView, usize) -> bool,
    binders: usize,
    other: usize,
)
    requires
        all_tys(s, p, binders),
        binders <= other,
        forall|x: TyView, d: usize, e: usize| d <= e && #[trigger] p(x, d) ==> #[trigger] q(x, e),
    ensures
        all_tys(s, q, other),
    decreases s,
{
    assert forall|i: int| 0 <= i < s.len() implies all_ty(#[trigger] s[i], q, other) by {
        lemma_all_ty_implies(s[i], p, q, binders, other);
    }
}

/// The same of a predicate.
pub proof fn lemma_all_predicate_implies(
    pred: GenericPredicateView,
    p: spec_fn(TyView, usize) -> bool,
    q: spec_fn(TyView, usize) -> bool,
    binders: usize,
    other: usize,
)
    requires
        all_predicate(pred, p, binders),
        binders <= other,
        forall|x: TyView, d: usize, e: usize| d <= e && #[trigger] p(x, d) ==> #[trigger] q(x, e),
    ensures
        all_predicate(pred, q, other),
    decreases pred,
{
    match pred {
        GenericPredicateView::Implemented(tr) => {
            lemma_all_tys_implies(tr.substs, p, q, binders, other);
        },
        GenericPredicateView::Projection(pp) => {
            lemma_all_tys_implies(pp.projection_ty.parameters, p, q, binders, other);
            lemma_all_ty_implies(pp.ty, p, q, binders, other);
        },
        GenericPredicateView::Error => {},
    }
}

/// The same of a list of predicates.
pub proof fn lemma_all_predicates_implies(
    s: Seq<GenericPredicateView>,
    p: spec_fn(TyView, usize) -> bool,
    q: spec_fn(TyView, usize) -> bool,
    binders: usize,
    other: usize,
)
    requires
        all_predicates(s, p, binders),
        binders <= other,
        forall|x: TyView, d: usize, e: usize| d <= e && #[trigger] p(x, d) ==> #[trigger] q(x, e),
    ensures
        all_predicates(s, q, other),
    decreases s,
{
    assert forall|i: int| 0 <= i < s.len() implies all_predicate(#[trigger] s[i], q, other) by {
        lemma_all_predicate_implies(s[i], p, q, binders, other);
    }
}

/// Whether rewriting by `g` takes nodes of which `p` holds to types of
/// whose nodes `q` holds: handed a node that is like one of which `p` holds,
/// with `q` holding of all inside it, `g` gives a type of whose every node
/// `q` holds.
pub open spec fn carries(
    p: spec_fn(TyView, usize) -> bool,
    g: spec_fn(TyView, usize) -> TyView,
    q: spec_fn(TyView, usize) -> bool,
) -> bool {
    forall|t: TyView, u: TyView, binders: usize|
        #[trigger] same_head(t, u) && p(t, binders) && #[trigger] all_inside(u, q, binders)
            ==> all_ty(g(u, binders), q, binders)
}

/// Where `p` holds of every node of a type and `g` carries `p` to `q`, `q`
/// holds of every node of the rewritten type.
pub proof fn lemma_all_map_ty(
    t: TyView,
    p: spec_fn(TyView, usize) -> bool,
    g: spec_fn(TyView, usize) -> TyView,
    q: spec_fn(TyView, usize) -> bool,
    binders: usize,
)
    requires
        all_ty(t, p, binders),
        carries(p, g, q),
    ensures
        all_ty(map_ty(t, g, binders), q, binders),
    decreases t,
{
    match t {
        TyView::Apply(a) => {
            lemma_all_map_tys(a.parameters, p, g, q, binders);
            let u = TyView::Apply(
                ApplicationTyView {
                    ctor: a.ctor,
                    parameters: map_tys(a.parameters, g, binders),
                },
            );
            assert(same_head(t, u) && all_inside(u, q, binders));
        },
        TyView::Projection(pt) => {
            lemma_all_map_tys(pt.parameters, p, g, q, binders);
            let u = TyView::Projection(
                ProjectionTyView {
                    associated_ty: pt.associated_ty,
                    parameters: map_tys(pt.parameters, g, binders),
                },
            );
            assert(same_head(t, u) && all_inside(u, q, binders));
        },
        TyView::Dyn(predicates) => {
            lemma_all_map_predicates(predicates, p, g, q, enter_binder(binders));
            let u = TyView::Dyn(map_predicates(predicates, g, enter_binder(binders)));
            assert(same_head(t, u) && all_inside(u, q, binders));
        },
        TyView::Opaque(predicates) => {
            lemma_all_map_predicates(predicates, p, g, q, enter_binder(binders));
            let u = TyView::Opaque(map_predicates(predicates, g, enter_binder(binders)));
            assert(same_head(t, u) && all_inside(u, q, binders));
        },
        TyView::Placeholder(_) | TyView::Bound(_) | TyView::Infer(_) | TyView::Unknown => {
            assert(same_head(t, t) && all_inside(t, q, binders));
        },
    }
}

/// The same of a list of types.
pub proof fn lemma_all_map_tys(
    s: Seq<TyView>,
    p: spec_fn(TyView, usize) -> bool,
    g: spec_fn(TyView, usize) -> TyView,
    q: spec_fn(TyView, usize) -> bool,
    binders: usize,
)
    requires
        all_tys(s, p, binders),
        carries(p, g, q),
    ensures
        all_tys(map_tys(s, g, binders), q, binders),
    decreases s,
{
    let mapped = map_tys(s, g, binders);
    assert forall|i: int| 0 <= i < mapped.len() implies all_ty(#[trigger] mapped[i], q, binders) by {
        lemma_all_map_ty(s[i], p, g, q, binders);
    }
}

/// The same of a predicate.
pub proof fn lemma_all_map_predicate(
    pred: GenericPredicateView,
    p: spec_fn(TyView, usize) -> bool,
    g: spec_fn(TyView, usize) -> TyView,
    q: spec_fn(TyView, usize) -> bool,
    binders: usize,
)
    requires
        all_predicate(pred, p, binders),
        carries(p, g, q),
    ensures
        all_predicate(map_predicate(pred, g, binders), q, binders),
    decreases pred,
{
    match pred {
        GenericPredicateView::Implemented(tr) => {
            lemma_all_map_tys(tr.substs, p, g, q, binders);
        },
        GenericPredicateView::Projection(pp) => {
            lemma_all_map_tys(pp.projection_ty.parameters, p, g, q, binders);
            lemma_all_map_ty(pp.ty, p, g, q, binders);
        },
        GenericPredicateView::Error => {},
    }
}

/// The same of a list of predicates.
pub proof fn lemma_all_map_predicates(
    s: Seq<GenericPredicateView>,
    p: spec_fn(TyView, usize) -> bool,
    g: spec_fn(TyView, usize) -> TyView,
    q: spec_fn(TyView, usize) -> bool,
    binders: usize,
)
    requires
        all_predicates(s, p, binders),
        carries(p, g, q),
    ensures
        all_predicates(map_predicates(s, g, binders), q, binders),
    decreases s,
{
    let mapped = map_predicates(s, g, binders);
    assert forall|i: int| 0 <= i < mapped.len() implies all_predicate(
        #[trigger] mapped[i],
        q,
        binders,
    ) by {
        lemma_all_map_predicate(s[i], p, g, q, binders);
    }
}

/// A property that does not depend on the depth holds of every node of a
/// type just when it holds of each node that a walk of the type visits.
pub proof fn lemma_all_ty_nodes(t: TyView, p: spec_fn(TyView) -> bool, binders: usize)
    ensures
        all_ty(t, at_every_depth(p), binders) <==> each(ty_nodes(t), p),
    decreases t,
{
    let q = at_every_depth(p);
    let inside = match t {
        TyView::Apply(a) => {
            lemma_all_tys_nodes(a.parameters, a.parameters.len(), p, binders);
            assert(a.parameters.take(a.parameters.len() as int) =~= a.parameters);
            tys_nodes(a.parameters, a.parameters.len())
        },
        TyView::Projection(pt) => {
            lemma_all_tys_nodes(pt.parameters, pt.parameters.len(), p, binders);
            assert(pt.parameters.take(pt.parameters.len() as int) =~= pt.parameters);
            tys_nodes(pt.parameters, pt.parameters.len())
        },
        TyView::Dyn(predicates) => {
            lemma_all_predicates_nodes(predicates, predicates.len(), p, enter_binder(binders));
            assert(predicates.take(predicates.len() as int) =~= predicates);
            predicates_nodes(predicates, predicates.len())
        },
        TyView::Opaque(predicates) => {
            lemma_all_predicates_nodes(predicates, predicates.len(), p, enter_binder(binders));
            assert(predicates.take(predicates.len() as int) =~= predicates);
            predicates_nodes(predicates, predicates.len())
        },
        TyView::Placeholder(_) | TyView::Bound(_) | TyView::Infer(_) | TyView::Unknown => {
            Seq::empty()
        },
    };
    assert(ty_nodes(t) =~= inside.push(t));
    assert(all_inside(t, q, binders) <==> each(inside, p));
    lemma_each_concat(inside, seq![t], p);
    assert(inside.push(t) =~= inside + seq![t]);
    assert(each(seq![t], p) <==> p(t)) by {
        assert(seq![t][0] == t);
    }
}

/// The same of the first `n` types of a list.
pub proof fn lemma_all_tys_nodes(s: Seq<TyView>, n: nat, p: spec_fn(TyView) -> bool, binders: usize)
    requires
        n <= s.len(),
    ensures
        all_tys(s.take(n as int), at_every_depth(p), binders) <==> each(tys_nodes(s, n), p),
    decreases s, n,
{
    let q = at_every_depth(p);
    if n > 0 {
        let before = (n - 1) as nat;
        lemma_all_tys_nodes(s, before, p, binders);
        lemma_all_ty_nodes(s[n - 1], p, binders);
        lemma_each_concat(tys_nodes(s, before), ty_nodes(s[n - 1]), p);
        assert(s.take(n as int) =~= s.take(before as int).push(s[n - 1]));
        assert(all_tys(s.take(n as int), q, binders) <==> all_tys(s.take(before as int), q, binders)
            && all_ty(s[n - 1], q, binders)) by {
            let longer = s.take(n as int);
            let shorter = s.take(before as int);
            if all_tys(longer, q, binders) {
                assert forall|i: int| 0 <= i < shorter.len() implies all_ty(
                    #[trigger] shorter[i],
                    q,
                    binders,
                ) by {
                    assert(shorter[i] == longer[i]);
                }
                assert(longer[n - 1] == s[n - 1]);
            }
            if all_tys(shorter, q, binders) && all_ty(s[n - 1], q, binders) {
                assert forall|i: int| 0 <= i < longer.len() implies all_ty(
                    #[trigger] longer[i],
                    q,
                    binders,
                ) by {
                    if i < before {
                        assert(longer[i] == shorter[i]);
                    }
                }
            }
        }
    }
}

/// The same of a predicate.
pub proof fn lemma_all_predicate_nodes(
    pred: GenericPredicateView,
    p: spec_fn(TyView) -> bool,
    binders: usize,
)
    ensures
        all_predicate(pred, at_every_depth(p), binders) <==> each(predicate_nodes(pred), p),
    decreases pred,
{
    match pred {
        GenericPredicateView::Implemented(tr) => {
            lemma_all_tys_nodes(tr.substs, tr.substs.len(), p, binders);
            assert(tr.substs.take(tr.substs.len() as int) =~= tr.substs);
        },
        GenericPredicateView::Projection(pp) => {
            let params = pp.projection_ty.parameters;
            lemma_all_tys_nodes(params, params.len(), p, binders);
            assert(params.take(params.len() as int) =~= params);
            lemma_all_ty_nodes(pp.ty, p, binders);
            lemma_each_concat(tys_nodes(params, params.len()), ty_nodes(pp.ty), p);
        },
        GenericPredicateView::Error => {},
    }
}

/// The same of the first `n` predicates of a list.
pub proof fn lemma_all_predicates_nodes(
    s: Seq<GenericPredicateView>,
    n: nat,
    p: spec_fn(TyView) -> bool,
    binders: usize,
)
    requires
        n <= s.len(),
    ensures
        all_predicates(s.take(n as int), at_every_depth(p), binders) <==> each(
            predicates_nodes(s, n),
            p,
        ),
    decreases s, n,
{
    let q = at_every_depth(p);
    if n > 0 {
        let before = (n - 1) as nat;
        lemma_all_predicates_nodes(s, before, p, binders);
        lemma_all_predicate_nodes(s[n - 1], p, binders);
        lemma_each_concat(predicates_nodes(s, before), predicate_nodes(s[n - 1]), p);
        assert(s.take(n as int) =~= s.take(before as int).push(s[n - 1]));
        assert(all_predicates(s.take(n as int), q, binders) <==> all_predicates(
            s.take(before as int),
            q,
            binders,
        ) && all_predicate(s[n - 1], q, binders)) by {
            let longer = s.take(n as int);
            let shorter = s.take(before as int);
            if all_predicates(longer, q, binders) {
                assert forall|i: int| 0 <= i < shorter.len() implies all_predicate(
                    #[trigger] shorter[i],
                    q,
                    binders,
                ) by {
                    assert(shorter[i] == longer[i]);
                }
                assert(longer[n - 1] == s[n - 1]);
            }
            if all_predicates(shorter, q, binders) && all_predicate(s[n - 1], q, binders) {
                assert forall|i: int| 0 <= i < longer.len() implies all_predicate(
                    #[trigger] longer[i],
                    q,
                    binders,
                ) by {
                    if i < before {
                        assert(longer[i] == shorter[i]);
                    }
                }
            }
        }
    }
}

/// A property holds of each type of two lists put together just when it
/// holds of each type of either.
pub proof fn lemma_each_concat(a: Seq<TyView>, b: Seq<TyView>, p: spec_fn(TyView) -> bool)
    ensures
        each(a + b, p) <==> each(a, p) && each(b, p),
{
    let both = a + b;
    if each(both, p) {
        assert forall|i: int| 0 <= i < a.len() implies p(#[trigger] a[i]) by {
            assert(both[i] == a[i]);
        }
        assert forall|i: int| 0 <= i < b.len() implies p(#[trigger] b[i]) by {
            assert(both[a.len() + i] == b[i]);
        }
    }
    if each(a, p) && each(b, p) {
        assert forall|i: int| 0 <= i < both.len() implies p(#[trigger] both[i]) by {
            if i < a.len() {
                assert(both[i] == a[i]);
            } else {
                assert(both[i] == b[i - a.len()]);
            }
        }
    }
}

/// A property that does not depend on the depth holds of every node inside
/// a value just when it holds of each node that a walk of the value visits.
pub proof fn lemma_all_nodes<T: HasTypes>(v: T::V, p: spec_fn(TyView) -> bool, binders: usize)
    ensures
        all_types::<T>(v, at_every_depth(p), binders) <==> each(nodes_of::<T>(v), p),
{
    let s = T::types(v);
    lemma_all_tys_nodes(s, s.len(), p, binders);
    assert(s.take(s.len() as int) =~= s);
}

/// Shifting the bound variables of a value by `n` and then by `-n` gives
/// the value back, and the second shift is one that can be made.
pub proof fn lemma_shift_round_trip<T: HasTypes>(v: T::V, n: i32)
    requires
        all_types::<T>(v, can_shift(n), 0),
        n > i32::MIN,
    ensures
        all_types::<T>(
            map_types::<T>(v, at_any_depth(shift_fn(n)), 0),
            can_shift((-n) as i32),
            0,
        ),
        map_types::<T>(
            map_types::<T>(v, at_any_depth(shift_fn(n)), 0),
            at_any_depth(shift_fn((-n) as i32)),
            0,
        ) == v,
{
    let s = T::types(v);
    let up = at_any_depth(shift_fn(n));
    let down = at_any_depth(shift_fn((-n) as i32));
    let shifted = map_tys(s, up, 0);
    assert(rewrites_bound_vars(up));
    assert(carries(can_shift(n), up, can_shift((-n) as i32)));
    lemma_all_map_tys(s, can_shift(n), up, can_shift((-n) as i32), 0);
    lemma_map_tys_twice(s, up, down, 0);
    lemma_all_tys_implies(s, can_shift(n), fixed_by(and_then(up, down)), 0, 0);
    lemma_map_tys_fixed(s, and_then(up, down), 0);
    T::lemma_types(v, shifted, map_tys(shifted, down, 0));
    T::lemma_types(v, s, s);
}

/// A value under binders, every bound variable of which refers to one of
/// those binders, holds no bound variable once arguments that hold none are
/// substituted for all the binders.
pub proof fn lemma_subst_closes<T: HasTypes>(b: Binders<T::V>, substs: Seq<TyView>)
    requires
        substs.len() == b.num_binders,
        all_types::<T>(b.value, refers_to_outer(b.num_binders as nat), 0),
        all_tys(substs, no_bound_var(), 0),
    ensures
        all_types::<T>(map_types::<T>(b.value, subst_fn(substs), 0), no_bound_var(), 0),
{
    let s = T::types(b.value);
    let p = refers_to_outer(substs.len());
    let g = subst_fn(substs);
    let q = no_bound_var();
    assert forall|t: TyView, u: TyView, binders: usize|
        #[trigger] same_head(t, u) && p(t, binders) && #[trigger] all_inside(
            u,
            q,
            binders,
        ) implies all_ty(g(u, binders), q, binders) by {
        if let TyView::Bound(idx) = t {
            let arg = substs[idx - binders];
            assert(all_ty(arg, q, 0));
            lemma_all_ty_implies(arg, q, q, 0, binders);
        }
    }
    lemma_all_map_tys(s, p, g, q, 0);
    T::lemma_types(b.value, map_tys(s, g, 0), s);
}

/// Substitution for the first binders of a value leaves a value under the
/// binders that are left: where the bound variables of the value are at
/// most those of `b.num_binders` binders, and those of the arguments are
/// bound inside the arguments, the bound variables of the result are at
/// most those of the binders that no argument was given for. Where an
/// argument is given for every binder, every bound variable of the result is
/// bound inside it.
pub proof fn lemma_subst_binds<T: HasTypes>(b: Binders<T::V>, substs: Seq<TyView>)
    requires
        binds_all::<T>(b),
        substs.len() <= b.num_binders,
        all_tys(substs, free_below(0), 0),
    ensures
        all_types::<T>(
            map_types::<T>(b.value, subst_fn(substs), 0),
            free_below((b.num_binders - substs.len()) as nat),
            0,
        ),
{
    let s = T::types(b.value);
    let left = (b.num_binders - substs.len()) as nat;
    let p = free_below(b.num_binders as nat);
    let g = subst_fn(substs);
    let q = free_below(left);
    assert forall|t: TyView, u: TyView, binders: usize|
        #[trigger] same_head(t, u) && p(t, binders) && #[trigger] all_inside(
            u,
            q,
            binders,
        ) implies all_ty(g(u, binders), q, binders) by {
        if let TyView::Bound(idx) = t {
            if binders <= idx && idx - binders < substs.len() {
                let arg = substs[idx - binders];
                assert(all_ty(arg, free_below(0), 0));
                lemma_all_ty_implies(arg, free_below(0), q, 0, binders);
            }
        }
    }
    lemma_all_map_tys(s, p, g, q, 0);
    T::lemma_types(b.value, map_tys(s, g, 0), s);
}

/// Substitution into a trait object or an opaque type goes on inside it
/// one binder deeper. There the variable `0`, the `Self` type of the trait
/// object or opaque type, stays; the variables `1` to `substs.len()` become
/// the arguments; and the variables after them move down by the number of
/// arguments.
pub proof fn lemma_subst_under_trait_object(
    predicates: Seq<GenericPredicateView>,
    substs: Seq<TyView>,
    idx: u32,
)
    ensures
        map_ty(TyView::Dyn(predicates), subst_fn(substs), 0) == TyView::Dyn(
            map_predicates(predicates, subst_fn(substs), 1),
        ),
        map_ty(TyView::Opaque(predicates), subst_fn(substs), 0) == TyView::Opaque(
            map_predicates(predicates, subst_fn(substs), 1),
        ),
        subst_node(TyView::Bound(0), substs, 1) == TyView::Bound(0),
        1 <= idx <= substs.len() ==> subst_node(TyView::Bound(idx), substs, 1) == substs[idx - 1],
        idx > substs.len() ==> subst_node(TyView::Bound(idx), substs, 1) == TyView::Bound(
            (idx - substs.len()) as u32,
        ),
{
}

/// Substitution keeps the arity of every application, where the arguments
/// keep it themselves.
pub proof fn lemma_subst_keeps_arity<T: HasTypes>(v: T::V, substs: Seq<TyView>, db: &HirDatabase)
    requires
        all_types::<T>(v, has_arity(db), 0),
        all_tys(substs, has_arity(db), 0),
    ensures
        all_types::<T>(map_types::<T>(v, subst_fn(substs), 0), has_arity(db), 0),
{
    let s = T::types(v);
    let p = has_arity(db);
    let g = subst_fn(substs);
    assert forall|t: TyView, u: TyView, binders: usize|
        #[trigger] same_head(t, u) && p(t, binders) && #[trigger] all_inside(
            u,
            p,
            binders,
        ) implies all_ty(g(u, binders), p, binders) by {
        if let TyView::Bound(idx) = t {
            if binders <= idx && idx - binders < substs.len() {
                let arg = substs[idx - binders];
                assert(all_ty(arg, p, 0));
                lemma_all_ty_implies(arg, p, p, 0, binders);
            }
        }
    }
    lemma_all_map_tys(s, p, g, p, 0);
    T::lemma_types(v, map_tys(s, g, 0), s);
}

/// Shifting keeps the arity of every application.
pub proof fn lemma_shift_keeps_arity<T: HasTypes>(v: T::V, n: i32, db: &HirDatabase)
    requires
        all_types::<T>(v, has_arity(db), 0),
    ensures
        all_types::<T>(map_types::<T>(v, at_any_depth(shift_fn(n)), 0), has_arity(db), 0),
{
    let s = T::types(v);
    let p = has_arity(db);
    let g = at_any_depth(shift_fn(n));
    assert(carries(p, g, p));
    lemma_all_map_tys(s, p, g, p, 0);
    T::lemma_types(v, map_tys(s, g, 0), s);
}

/// The projection of an associated type of a trait, with the arguments of
/// a reference to that trait, is taken from that trait reference.
pub proof fn lemma_projection_round_trip(
    tr: TraitRefView,
    associated_ty: TypeAliasId,
    db: &HirDatabase,
)
    requires
        db.lookup(GenericDefId::TypeAliasId(associated_ty)) matches Some(data) && data.container
            == AssocContainerId::TraitId(tr.trait_),
    ensures
        (ProjectionTyView { associated_ty, parameters: tr.substs }).declared_in_trait(db),
        (ProjectionTyView { associated_ty, parameters: tr.substs }).trait_ref(db) == tr,
{
}

} // verus!
