//! The mathematical model of rewriting the types inside a value.
//!
//! Everything here speaks of views. A value is rewritten from the leaves
//! up by a function of a node and the node's binder depth; substitution and
//! shifting are two such functions.

use vstd::prelude::*;

use crate::ty::{
    ApplicationTyView, GenericPredicateView, ProjectionPredicateView, ProjectionTyView,
    TraitRefView, TyView,
};

verus! {

/// The binder depth inside a trait object or opaque type that stands at
/// depth `binders`: one more, as each of them binds its own `Self` type and
/// nothing else binds anything. The count stops at `usize::MAX`.
pub open spec fn enter_binder(binders: usize) -> usize {
    if binders < usize::MAX {
        (binders + 1) as usize
    } else {
        binders
    }
}

/// The type `t` rewritten from the leaves up: first the types inside each
/// node are rewritten, then `g` is applied to the node that holds the
/// results, together with the node's binder depth. `binders` is the depth
/// of `t` itself.
pub open spec fn map_ty(t: TyView, g: spec_fn(TyView, usize) -> TyView, binders: usize) -> TyView
    decreases t,
{
    match t {
        TyView::Apply(a) => g(
            TyView::Apply(
                ApplicationTyView { ctor: a.ctor, parameters: map_tys(a.parameters, g, binders) },
            ),
            binders,
        ),
        TyView::Projection(p) => g(
            TyView::Projection(
                ProjectionTyView {
                    associated_ty: p.associated_ty,
                    parameters: map_tys(p.parameters, g, binders),
                },
            ),
            binders,
        ),
        TyView::Dyn(predicates) => g(
            TyView::Dyn(map_predicates(predicates, g, enter_binder(binders))),
            binders,
        ),
        TyView::Opaque(predicates) => g(
            TyView::Opaque(map_predicates(predicates, g, enter_binder(binders))),
            binders,
        ),
        TyView::Placeholder(_) | TyView::Bound(_) | TyView::Infer(_) | TyView::Unknown => g(
            t,
            binders,
        ),
    }
}

/// Each type of `s` rewritten by [`map_ty`].
pub open spec fn map_tys(s: Seq<TyView>, g: spec_fn(TyView, usize) -> TyView, binders: usize) -> Seq<
    TyView,
>
    decreases s,
{
    Seq::new(
        s.len(),
        |i: int|
            if 0 <= i < s.len() {
                map_ty(s[i], g, binders)
            } else {
                TyView::Unknown
            },
    )
}

/// The types inside the predicate `p` rewritten by [`map_ty`].
pub open spec fn map_predicate(
    p: GenericPredicateView,
    g: spec_fn(TyView, usize) -> TyView,
    binders: usize,
) -> GenericPredicateView
    decreases p,
{
    match p {
        GenericPredicateView::Implemented(tr) => GenericPredicateView::Implemented(
            TraitRefView { trait_: tr.trait_, substs: map_tys(tr.substs, g, binders) },
        ),
        GenericPredicateView::Projection(pp) => GenericPredicateView::Projection(
            ProjectionPredicateView {
                projection_ty: ProjectionTyView {
                    associated_ty: pp.projection_ty.associated_ty,
                    parameters: map_tys(pp.projection_ty.parameters, g, binders),
                },
                ty: map_ty(pp.ty, g, binders),
            },
        ),
        GenericPredicateView::Error => GenericPredicateView::Error,
    }
}

/// Each predicate of `s` rewritten by [`map_predicate`].
pub open spec fn map_predicates(
    s: Seq<GenericPredicateView>,
    g: spec_fn(TyView, usize) -> TyView,
    binders: usize,
) -> Seq<GenericPredicateView>
    decreases s,
{
    Seq::new(
        s.len(),
        |i: int|
            if 0 <= i < s.len() {
                map_predicate(s[i], g, binders)
            } else {
                GenericPredicateView::Error
            },
    )
}

/// The nodes of the type `t` in the order of a walk: the nodes inside a
/// node come before the node itself, and `t` comes last.
pub open spec fn ty_nodes(t: TyView) -> Seq<TyView>
    decreases t, 0nat,
{
    match t {
        TyView::Apply(a) => tys_nodes(a.parameters, a.parameters.len()).push(t),
        TyView::Projection(p) => tys_nodes(p.parameters, p.parameters.len()).push(t),
        TyView::Dyn(predicates) => predicates_nodes(predicates, predicates.len()).push(t),
        TyView::Opaque(predicates) => predicates_nodes(predicates, predicates.len()).push(t),
        TyView::Placeholder(_) | TyView::Bound(_) | TyView::Infer(_) | TyView::Unknown => seq![t],
    }
}

/// The nodes of the first `n` types of `s`, type after type.
pub open spec fn tys_nodes(s: Seq<TyView>, n: nat) -> Seq<TyView>
    decreases s, n,
{
    if n == 0 || n > s.len() {
        Seq::empty()
    } else {
        tys_nodes(s, (n - 1) as nat) + ty_nodes(s[n - 1])
    }
}

/// The nodes of the types inside the predicate `p`.
pub open spec fn predicate_nodes(p: GenericPredicateView) -> Seq<TyView>
    decreases p, 0nat,
{
    match p {
        GenericPredicateView::Implemented(tr) => tys_nodes(tr.substs, tr.substs.len()),
        GenericPredicateView::Projection(pp) => tys_nodes(
            pp.projection_ty.parameters,
            pp.projection_ty.parameters.len(),
        ) + ty_nodes(pp.ty),
        GenericPredicateView::Error => Seq::empty(),
    }
}

/// The nodes of the first `n` predicates of `s`, predicate after predicate.
pub open spec fn predicates_nodes(s: Seq<GenericPredicateView>, n: nat) -> Seq<TyView>
    decreases s, n,
{
    if n == 0 || n > s.len() {
        Seq::empty()
    } else {
        predicates_nodes(s, (n - 1) as nat) + predicate_nodes(s[n - 1])
    }
}

/// Whether `p` holds of every node of the type `t` and the node's binder
/// depth, where `t` itself stands at depth `binders`.
pub open spec fn all_ty(t: TyView, p: spec_fn(TyView, usize) -> bool, binders: usize) -> bool
    decreases t, 1nat,
{
    p(t, binders) && all_inside(t, p, binders)
}

/// Whether `p` holds of every node inside the type `t`, not counting `t`
/// itself, which stands at depth `binders`.
pub open spec fn all_inside(t: TyView, p: spec_fn(TyView, usize) -> bool, binders: usize) -> bool
    decreases t, 0nat,
{
    match t {
        TyView::Apply(a) => all_tys(a.parameters, p, binders),
        TyView::Projection(pt) => all_tys(pt.parameters, p, binders),
        TyView::Dyn(predicates) => all_predicates(predicates, p, enter_binder(binders)),
        TyView::Opaque(predicates) => all_predicates(predicates, p, enter_binder(binders)),
        TyView::Placeholder(_) | TyView::Bound(_) | TyView::Infer(_) | TyView::Unknown => true,
    }
}

/// [`all_ty`] of each type of `s`.
pub open spec fn all_tys(s: Seq<TyView>, p: spec_fn(TyView, usize) -> bool, binders: usize) -> bool
    decreases s, 0nat,
{
    forall|i: int| 0 <= i < s.len() ==> all_ty(#[trigger] s[i], p, binders)
}

/// [`all_ty`] of each type inside the predicate `q`.
pub open spec fn all_predicate(
    q: GenericPredicateView,
    p: spec_fn(TyView, usize) -> bool,
    binders: usize,
) -> bool
    decreases q, 0nat,
{
    match q {
        GenericPredicateView::Implemented(tr) => all_tys(tr.substs, p, binders),
        GenericPredicateView::Projection(pp) => all_tys(pp.projection_ty.parameters, p, binders)
            && all_ty(pp.ty, p, binders),
        GenericPredicateView::Error => true,
    }
}

/// [`all_predicate`] of each predicate of `s`.
pub open spec fn all_predicates(
    s: Seq<GenericPredicateView>,
    p: spec_fn(TyView, usize) -> bool,
    binders: usize,
) -> bool
    decreases s, 0nat,
{
    forall|i: int| 0 <= i < s.len() ==> all_predicate(#[trigger] s[i], p, binders)
}


/// The function of a node and its binder depth that applies `g` to the
/// node, whatever the depth.
pub open spec fn at_any_depth(g: spec_fn(TyView) -> TyView) -> spec_fn(TyView, usize) -> TyView {
    |t: TyView, binders: usize| g(t)
}

/// What substitution makes of one node at depth `binders`. A bound variable
/// that is free at this depth and refers to one of the `substs.len()`
/// outermost binders becomes the argument for it. One that refers to a
/// binder further out moves down past the binders that are removed. One
/// that is bound at this depth, and any other node, stays.
pub open spec fn subst_node(t: TyView, substs: Seq<TyView>, binders: usize) -> TyView {
    match t {
        TyView::Bound(idx) => if idx < binders {
            t
        } else if idx - binders < substs.len() {
            substs[idx - binders]
        } else {
            TyView::Bound((idx - substs.len()) as u32)
        },
        _ => t,
    }
}

/// [`subst_node`] with the arguments `substs`.
pub open spec fn subst_fn(substs: Seq<TyView>) -> spec_fn(TyView, usize) -> TyView {
    |t: TyView, binders: usize| subst_node(t, substs, binders)
}

/// Whether `n` can be added to the index of the node `t`, if it is a bound
/// variable: the sum is not negative and is an index again.
pub open spec fn can_shift_node(t: TyView, n: i32) -> bool {
    t matches TyView::Bound(idx) ==> 0 <= idx + n <= u32::MAX
}

/// [`can_shift_node`] by `n`, at any depth.
pub open spec fn can_shift(n: i32) -> spec_fn(TyView, usize) -> bool {
    |t: TyView, binders: usize| can_shift_node(t, n)
}

/// The node `t` with `n` added to its index, if it is a bound variable and
/// the sum is an index. Any other node stays.
pub open spec fn shift_node(t: TyView, n: i32) -> TyView {
    match t {
        TyView::Bound(idx) => if 0 <= idx + n <= u32::MAX {
            TyView::Bound((idx + n) as u32)
        } else {
            t
        },
        _ => t,
    }
}

/// [`shift_node`] by `n`.
pub open spec fn shift_fn(n: i32) -> spec_fn(TyView) -> TyView {
    |t: TyView| shift_node(t, n)
}

/// Whether the node `t` has nothing inside it.
pub open spec fn is_leaf(t: TyView) -> bool {
    t is Placeholder || t is Bound || t is Infer || t is Unknown
}

/// Whether two nodes are alike but for what is inside their arguments: the
/// same kind of node, with the same constructor or associated type and as
/// many arguments or predicates; for a node with nothing inside, the same
/// node.
pub open spec fn same_head(t: TyView, u: TyView) -> bool {
    match t {
        TyView::Apply(a) => u matches TyView::Apply(b) && a.ctor == b.ctor && a.parameters.len()
            == b.parameters.len(),
        TyView::Projection(a) => u matches TyView::Projection(b) && a.associated_ty
            == b.associated_ty && a.parameters.len() == b.parameters.len(),
        TyView::Dyn(ps) => u matches TyView::Dyn(qs) && ps.len() == qs.len(),
        TyView::Opaque(ps) => u matches TyView::Opaque(qs) && ps.len() == qs.len(),
        TyView::Placeholder(_) | TyView::Bound(_) | TyView::Infer(_) | TyView::Unknown => t == u,
    }
}

/// The property of a node that `g` leaves it as it is.
pub open spec fn fixed_by(g: spec_fn(TyView, usize) -> TyView) -> spec_fn(TyView, usize) -> bool {
    |t: TyView, binders: usize| g(t, binders) == t
}

/// First `g`, then `h`.
pub open spec fn and_then(
    g: spec_fn(TyView, usize) -> TyView,
    h: spec_fn(TyView, usize) -> TyView,
) -> spec_fn(TyView, usize) -> TyView {
    |t: TyView, binders: usize| h(g(t, binders), binders)
}

/// Whether `g` changes bound variables only, and makes of each a node with
/// nothing inside.
pub open spec fn rewrites_bound_vars(g: spec_fn(TyView, usize) -> TyView) -> bool {
    forall|t: TyView, binders: usize|
        if t is Bound {
            is_leaf(#[trigger] g(t, binders))
        } else {
            #[trigger] g(t, binders) == t
        }
}

/// The property `p` of a node, at whatever depth the node stands.
pub open spec fn at_every_depth(p: spec_fn(TyView) -> bool) -> spec_fn(TyView, usize) -> bool {
    |t: TyView, binders: usize| p(t)
}

/// Whether `p` holds of every type of `s`.
pub open spec fn each(s: Seq<TyView>, p: spec_fn(TyView) -> bool) -> bool {
    forall|i: int| 0 <= i < s.len() ==> p(#[trigger] s[i])
}

/// The property of a node that, if it is a bound variable, it refers to a
/// binder inside the value it stands in or to one of the `n` binders next
/// to that value.
pub open spec fn free_below(n: nat) -> spec_fn(TyView, usize) -> bool {
    |t: TyView, binders: usize| t matches TyView::Bound(idx) ==> idx < binders + n
}

/// The property of a node that it is no inference variable.
pub open spec fn no_infer_var() -> spec_fn(TyView, usize) -> bool {
    |t: TyView, binders: usize| !(t is Infer)
}

/// The property of a node that it is no bound variable.
pub open spec fn no_bound_var() -> spec_fn(TyView, usize) -> bool {
    |t: TyView, binders: usize| !(t is Bound)
}

/// The property of a node that, if it is a bound variable, it is free and
/// refers to one of the `n` binders next to the value it stands in.
pub open spec fn refers_to_outer(n: nat) -> spec_fn(TyView, usize) -> bool {
    |t: TyView, binders: usize| t matches TyView::Bound(idx) ==> binders <= idx < binders + n
}

} // verus!
