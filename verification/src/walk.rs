//! Walking over the types inside a value, and rewriting them.

use std::sync::Arc;
use vstd::prelude::*;

use crate::model::{
    all_tys, at_any_depth, can_shift, map_predicate, map_predicates, map_ty, map_tys,
    predicate_nodes, predicates_nodes, shift_fn, shift_node, subst_fn, subst_node, ty_nodes,
    tys_nodes,
};
use crate::ty::{
    predicates_view, tys_view, FnSig, GenericPredicate, GenericPredicateView,
    ProjectionPredicate, ProjectionPredicateView, ProjectionTy, ProjectionTyView, Substs,
    TraitRef, TraitRefView, Ty, TyView,
};

verus! {

/// Whether the function `f` can be called on every type at every depth.
pub open spec fn total<F: Fn(Ty, usize) -> Ty>(f: F) -> bool {
    forall|t: Ty, binders: usize| call_requires(f, (t, binders))
}

/// Whether the function `f`, seen through the views of its argument and
/// result, is the mathematical function `g`.
pub open spec fn computes<F: Fn(Ty, usize) -> Ty>(
    f: F,
    g: spec_fn(TyView, usize) -> TyView,
) -> bool {
    forall|t: Ty, binders: usize, r: Ty| call_ensures(f, (t, binders), r) ==> r@ == g(t@, binders)
}

/// Whether the function `f` can be called on every type.
pub open spec fn total_flat<F: Fn(Ty) -> Ty>(f: F) -> bool {
    forall|t: Ty| call_requires(f, (t,))
}

/// Whether the function `f`, seen through the views of its argument and
/// result, is the mathematical function `g`.
pub open spec fn computes_flat<F: Fn(Ty) -> Ty>(f: F, g: spec_fn(TyView) -> TyView) -> bool {
    forall|t: Ty, r: Ty| call_ensures(f, (t,), r) ==> r@ == g(t@)
}

/// The views of the types that `s` refers to.
pub open spec fn refs_view(s: Seq<&Ty>) -> Seq<TyView> {
    Seq::new(s.len(), |i: int| s[i]@)
}

/// Values that hold types.
///
/// What such a value holds is told by two functions on its view: the types
/// directly inside it, and the value with other types in their place.
pub trait HasTypes: Sized + View {
    /// The types directly inside `v`, in the order of a walk.
    spec fn types(v: Self::V) -> Seq<TyView>;

    /// `v` with the types `tys` in the place of those directly inside it.
    spec fn with_types(v: Self::V, tys: Seq<TyView>) -> Self::V;

    /// Putting a value's own types back changes nothing; the types that
    /// were put are those that are inside; and of two lists put one after
    /// the other the second one stays.
    proof fn lemma_types(v: Self::V, tys: Seq<TyView>, later: Seq<TyView>)
        ensures
            Self::with_types(v, Self::types(v)) == v,
            tys.len() == Self::types(v).len() ==> Self::types(Self::with_types(v, tys)) == tys,
            Self::with_types(Self::with_types(v, tys), later) == Self::with_types(v, later),
    ;
}

/// The nodes of the types inside `v`, each type's inner nodes before the
/// type itself.
pub open spec fn nodes_of<T: HasTypes>(v: T::V) -> Seq<TyView> {
    tys_nodes(T::types(v), T::types(v).len())
}

/// `v` with each type inside it rewritten by [`map_ty`].
pub open spec fn map_types<T: HasTypes>(
    v: T::V,
    g: spec_fn(TyView, usize) -> TyView,
    binders: usize,
) -> T::V {
    T::with_types(v, map_tys(T::types(v), g, binders))
}

/// Whether `p` holds of every node inside `v` at its binder depth.
pub open spec fn all_types<T: HasTypes>(
    v: T::V,
    p: spec_fn(TyView, usize) -> bool,
    binders: usize,
) -> bool {
    all_tys(T::types(v), p, binders)
}

/// This allows walking structures that contain types to do something with
/// those types: to visit them and to rewrite them.
pub trait TypeWalk: HasTypes {
    /// Visits every node, the nodes inside a node before the node itself,
    /// and appends each to `visited`.
    fn walk<'a>(&'a self, visited: &mut Vec<&'a Ty>)
        ensures
            refs_view(final(visited)@) == refs_view(old(visited)@) + nodes_of::<Self>(self@),
    ;

    /// Walk the type, counting entered binders.
    ///
    /// Replaces every node by what `f` makes of it, the nodes inside a node
    /// before the node itself. `f` is handed the node, which already holds
    /// the results for its inner nodes, and the number of binders around it,
    /// counted from `binders`. `f` has to take every type at every depth.
    ///
    /// `Ty::Bound` variables use DeBruijn indexing, which means that 0 refers
    /// to the innermost binder, 1 to the next, etc.. So when we want to
    /// substitute a certain bound variable, we can't just walk the whole type
    /// and blindly replace each instance of a certain index; when we 'enter'
    /// things that introduce new bound variables, we have to keep track of
    /// that. Currently, the only thing that introduces bound variables on our
    /// side are `Ty::Dyn` and `Ty::Opaque`, which each introduce a bound
    /// variable for the self type.
    fn walk_mut_binders<F: Fn(Ty, usize) -> Ty>(&mut self, f: &F, binders: usize)
        requires
            total(*f),
        ensures
            forall|g: spec_fn(TyView, usize) -> TyView| #[trigger]
                computes(*f, g) ==> final(self)@ == map_types::<Self>(old(self)@, g, binders),
    ;

    /// Replaces every node by what `f` makes of it, the nodes inside a node
    /// before the node itself. `f` has to take every type.
    fn walk_mut<F: Fn(Ty) -> Ty>(&mut self, f: &F)
        requires
            total_flat(*f),
        ensures
            forall|g: spec_fn(TyView) -> TyView| #[trigger]
                computes_flat(*f, g) ==> final(self)@ == map_types::<Self>(
                    old(self)@,
                    at_any_depth(g),
                    0,
                ),
    {
        let with_depth = |ty: Ty, _binders: usize| -> (r: Ty)
            requires
                f.requires((ty,)),
            ensures
                f.ensures((ty,), r),
            { f(ty) };
        self.walk_mut_binders(&with_depth, 0);
        proof {
            assert forall|g: spec_fn(TyView) -> TyView| #[trigger]
                computes_flat(*f, g) implies self@ == map_types::<Self>(
                old(self)@,
                at_any_depth(g),
                0,
            ) by {
                assert(computes(with_depth, at_any_depth(g)));
            }
        }
    }

    /// The value with every node replaced by what `f` makes of it, the
    /// nodes inside a node before the node itself. `f` has to take every
    /// type.
    fn fold<F: Fn(Ty) -> Ty>(self, f: &F) -> (r: Self)
        requires
            total_flat(*f),
        ensures
            forall|g: spec_fn(TyView) -> TyView| #[trigger]
                computes_flat(*f, g) ==> r@ == map_types::<Self>(self@, at_any_depth(g), 0),
    {
        let mut this = self;
        this.walk_mut(f);
        this
    }

    /// Substitutes `substs` for the outermost `substs.len()` bound
    /// variables, and renumbers the bound variables that stay free.
    ///
    /// The arguments are put in as they are. Where one of them holds a
    /// bound variable and lands inside a trait object or opaque type, that
    /// variable is captured there: it is for the caller to hand in
    /// arguments for which this is meant.
    fn subst_bound_vars(self, substs: &Substs) -> (r: Self)
        ensures
            r@ == map_types::<Self>(self@, subst_fn(substs@), 0),
    {
        let args = substs.as_vec();
        let subst = |ty: Ty, binders: usize| -> (r: Ty)
            ensures
                r@ == subst_node(ty@, substs@, binders),
            {
                match ty {
                    Ty::Bound(idx) => {
                        if idx as usize >= binders && (idx as usize - binders) < args.len() {
                            args[idx as usize - binders].clone()
                        } else if idx as usize >= binders {
                            // shift free binders
                            Ty::Bound(idx - args.len() as u32)
                        } else {
                            Ty::Bound(idx)
                        }
                    },
                    ty => ty,
                }
            };
        let mut this = self;
        this.walk_mut_binders(&subst, 0);
        proof {
            assert(computes(subst, subst_fn(substs@)));
        }
        this
    }

    /// Adds `n` to the index of every bound variable. No sum may be
    /// negative or too large for an index.
    fn shift_bound_vars(self, n: i32) -> (r: Self)
        requires
            all_types::<Self>(self@, can_shift(n), 0),
        ensures
            r@ == map_types::<Self>(self@, at_any_depth(shift_fn(n)), 0),
    {
        let shift = |ty: Ty| -> (r: Ty)
            ensures
                r@ == shift_node(ty@, n),
            {
                match ty {
                    Ty::Bound(idx) => {
                        let shifted: i64 = idx as i64 + n as i64;
                        if 0 <= shifted && shifted <= u32::MAX as i64 {
                            Ty::Bound(shifted as u32)
                        } else {
                            Ty::Bound(idx)
                        }
                    },
                    ty => ty,
                }
            };
        let r = self.fold(&shift);
        proof {
            assert(computes_flat(shift, shift_fn(n)));
        }
        r
    }
}

/// The nodes of the first `n` types of a list do not depend on what comes
/// after them in the list.
pub proof fn lemma_tys_nodes_prefix(s: Seq<TyView>, longer: Seq<TyView>, n: nat)
    requires
        n <= s.len() <= longer.len(),
        forall|i: int| 0 <= i < n ==> s[i] == longer[i],
    ensures
        tys_nodes(s, n) == tys_nodes(longer, n),
    decreases n,
{
    if n > 0 {
        lemma_tys_nodes_prefix(s, longer, (n - 1) as nat);
    }
}

/// Appends the nodes inside each predicate of `predicates` to `visited`.
fn walk_predicates<'a>(predicates: &'a Vec<GenericPredicate>, visited: &mut Vec<&'a Ty>)
    ensures
        refs_view(final(visited)@) == refs_view(old(visited)@) + predicates_nodes(
            predicates_view(predicates@),
            predicates@.len(),
        ),
    decreases predicates,
{
    let n = predicates.len();
    let mut i: usize = 0;
    while i < n
        invariant
            n == predicates@.len(),
            i <= n,
            refs_view(visited@) == refs_view(old(visited)@) + predicates_nodes(
                predicates_view(predicates@),
                i as nat,
            ),
        decreases n - i,
    {
        predicates[i].walk(visited);
        proof {
            let ps = predicates_view(predicates@);
            assert(ps[i as int] == predicates@[i as int]@);
            assert(refs_view(visited@) =~= refs_view(old(visited)@) + predicates_nodes(
                ps,
                (i + 1) as nat,
            ));
        }
        i += 1;
    }
}

/// Rewrites the types inside each predicate of `predicates`.
fn walk_predicates_mut<F: Fn(Ty, usize) -> Ty>(
    predicates: &mut Arc<Vec<GenericPredicate>>,
    f: &F,
    binders: usize,
)
    requires
        total(*f),
    ensures
        forall|g: spec_fn(TyView, usize) -> TyView| #[trigger]
            computes(*f, g) ==> predicates_view(final(predicates)@) == map_predicates(
                predicates_view(old(predicates)@),
                g,
                binders,
            ),
    decreases *old(predicates),
{
    let n = predicates.len();
    let mut out: Vec<GenericPredicate> = Vec::with_capacity(n);
    let mut i: usize = 0;
    while i < n
        invariant
            n == predicates@.len(),
            i <= n,
            out@.len() == i,
            total(*f),
            *predicates == *old(predicates),
            forall|g: spec_fn(TyView, usize) -> TyView| #[trigger]
                computes(*f, g) ==> forall|j: int|
                    0 <= j < i ==> (#[trigger] out@[j])@ == map_predicate(
                        predicates@[j]@,
                        g,
                        binders,
                    ),
        decreases n - i,
    {
        let mut p = predicates[i].clone();
        p.walk_mut_binders(f, binders);
        out.push(p);
        i += 1;
    }
    proof {
        assert forall|g: spec_fn(TyView, usize) -> TyView| #[trigger]
            computes(*f, g) implies predicates_view(out@) == map_predicates(
            predicates_view(old(predicates)@),
            g,
            binders,
        ) by {
            let before = predicates_view(old(predicates)@);
            assert forall|j: int| 0 <= j < n implies predicates_view(out@)[j] == map_predicates(
                before,
                g,
                binders,
            )[j] by {
                assert(out@[j]@ == map_predicate(predicates@[j]@, g, binders));
            }
            assert(predicates_view(out@) =~= map_predicates(before, g, binders));
        }
    }
    *predicates = Arc::new(out);
}

impl HasTypes for Substs {
    open spec fn types(v: Seq<TyView>) -> Seq<TyView> {
        v
    }

    open spec fn with_types(v: Seq<TyView>, tys: Seq<TyView>) -> Seq<TyView> {
        tys
    }

    proof fn lemma_types(v: Seq<TyView>, tys: Seq<TyView>, later: Seq<TyView>) {
    }
}

impl TypeWalk for Substs {
    fn walk<'a>(&'a self, visited: &mut Vec<&'a Ty>)
        decreases self,
    {
        let tys = self.as_vec();
        let n = tys.len();
        let mut i: usize = 0;
        while i < n
            invariant
                n == tys@.len(),
                i <= n,
                tys_view(tys@) == self@,
                decreases_to!(self => tys),
                refs_view(visited@) == refs_view(old(visited)@) + tys_nodes(self@, i as nat),
            decreases n - i,
        {
            tys[i].walk(visited);
            proof {
                assert(self@[i as int] == tys@[i as int]@);
                assert(refs_view(visited@) =~= refs_view(old(visited)@) + tys_nodes(
                    self@,
                    (i + 1) as nat,
                ));
            }
            i += 1;
        }
    }

    fn walk_mut_binders<F: Fn(Ty, usize) -> Ty>(&mut self, f: &F, binders: usize)
        decreases *old(self),
    {
        let tys = self.as_vec();
        let n = tys.len();
        let mut out: Vec<Ty> = Vec::with_capacity(n);
        let mut i: usize = 0;
        while i < n
            invariant
                n == tys@.len(),
                i <= n,
                out@.len() == i,
                total(*f),
                *self == *old(self),
                decreases_to!(*old(self) => *tys),
                forall|g: spec_fn(TyView, usize) -> TyView| #[trigger]
                    computes(*f, g) ==> forall|j: int|
                        0 <= j < i ==> (#[trigger] out@[j])@ == map_ty(tys@[j]@, g, binders),
            decreases n - i,
        {
            let mut t = tys[i].clone();
            t.walk_mut_binders(f, binders);
            out.push(t);
            i += 1;
        }
        let r = Substs::from_vec(out);
        proof {
            assert forall|g: spec_fn(TyView, usize) -> TyView| #[trigger]
                computes(*f, g) implies r@ == map_tys(old(self)@, g, binders) by {
                assert forall|j: int| 0 <= j < n implies r@[j] == map_tys(
                    old(self)@,
                    g,
                    binders,
                )[j] by {
                    assert(out@[j]@ == map_ty(tys@[j]@, g, binders));
                }
                assert(r@ =~= map_tys(old(self)@, g, binders));
            }
        }
        *self = r;
    }
}

impl HasTypes for FnSig {
    open spec fn types(v: Seq<TyView>) -> Seq<TyView> {
        v
    }

    open spec fn with_types(v: Seq<TyView>, tys: Seq<TyView>) -> Seq<TyView> {
        tys
    }

    proof fn lemma_types(v: Seq<TyView>, tys: Seq<TyView>, later: Seq<TyView>) {
    }
}

impl TypeWalk for FnSig {
    fn walk<'a>(&'a self, visited: &mut Vec<&'a Ty>) {
        self.as_list().walk(visited);
    }

    fn walk_mut_binders<F: Fn(Ty, usize) -> Ty>(&mut self, f: &F, binders: usize) {
        self.as_list_mut().walk_mut_binders(f, binders);
    }
}

impl HasTypes for TraitRef {
    open spec fn types(v: TraitRefView) -> Seq<TyView> {
        v.substs
    }

    open spec fn with_types(v: TraitRefView, tys: Seq<TyView>) -> TraitRefView {
        TraitRefView { trait_: v.trait_, substs: tys }
    }

    proof fn lemma_types(v: TraitRefView, tys: Seq<TyView>, later: Seq<TyView>) {
    }
}

impl TypeWalk for TraitRef {
    fn walk<'a>(&'a self, visited: &mut Vec<&'a Ty>)
        decreases self,
    {
        self.substs.walk(visited);
    }

    fn walk_mut_binders<F: Fn(Ty, usize) -> Ty>(&mut self, f: &F, binders: usize)
        decreases *old(self),
    {
        self.substs.walk_mut_binders(f, binders);
    }
}

impl HasTypes for ProjectionTy {
    open spec fn types(v: ProjectionTyView) -> Seq<TyView> {
        v.parameters
    }

    open spec fn with_types(v: ProjectionTyView, tys: Seq<TyView>) -> ProjectionTyView {
        ProjectionTyView { associated_ty: v.associated_ty, parameters: tys }
    }

    proof fn lemma_types(v: ProjectionTyView, tys: Seq<TyView>, later: Seq<TyView>) {
    }
}

impl TypeWalk for ProjectionTy {
    fn walk<'a>(&'a self, visited: &mut Vec<&'a Ty>)
        decreases self,
    {
        self.parameters.walk(visited);
    }

    fn walk_mut_binders<F: Fn(Ty, usize) -> Ty>(&mut self, f: &F, binders: usize)
        decreases *old(self),
    {
        self.parameters.walk_mut_binders(f, binders);
    }
}

impl HasTypes for ProjectionPredicate {
    /// The parameters of the projection, then the type that it is equal to.
    open spec fn types(v: ProjectionPredicateView) -> Seq<TyView> {
        v.projection_ty.parameters.push(v.ty)
    }

    open spec fn with_types(v: ProjectionPredicateView, tys: Seq<TyView>) -> ProjectionPredicateView {
        ProjectionPredicateView {
            projection_ty: ProjectionTyView {
                associated_ty: v.projection_ty.associated_ty,
                parameters: tys.drop_last(),
            },
            ty: tys.last(),
        }
    }

    proof fn lemma_types(v: ProjectionPredicateView, tys: Seq<TyView>, later: Seq<TyView>) {
        assert(Self::types(v).drop_last() =~= v.projection_ty.parameters);
        if tys.len() == Self::types(v).len() {
            assert(Self::types(Self::with_types(v, tys)) =~= tys);
        }
    }
}

impl TypeWalk for ProjectionPredicate {
    fn walk<'a>(&'a self, visited: &mut Vec<&'a Ty>)
        decreases self,
    {
        self.projection_ty.walk(visited);
        self.ty.walk(visited);
        proof {
            let params = self@.projection_ty.parameters;
            let tys = Self::types(self@);
            lemma_tys_nodes_prefix(params, tys, params.len());
            assert(refs_view(visited@) =~= refs_view(old(visited)@) + tys_nodes(tys, tys.len()));
        }
    }

    fn walk_mut_binders<F: Fn(Ty, usize) -> Ty>(&mut self, f: &F, binders: usize)
        decreases *old(self),
    {
        self.projection_ty.walk_mut_binders(f, binders);
        self.ty.walk_mut_binders(f, binders);
        proof {
            assert forall|g: spec_fn(TyView, usize) -> TyView| #[trigger]
                computes(*f, g) implies self@ == Self::with_types(
                old(self)@,
                map_tys(Self::types(old(self)@), g, binders),
            ) by {
                let before = old(self)@;
                let mapped = map_tys(Self::types(before), g, binders);
                assert(mapped.drop_last() =~= map_tys(before.projection_ty.parameters, g, binders));
            }
        }
    }
}

impl HasTypes for GenericPredicate {
    /// Those of the trait reference or of the projection predicate inside.
    open spec fn types(v: GenericPredicateView) -> Seq<TyView> {
        match v {
            GenericPredicateView::Implemented(tr) => tr.substs,
            GenericPredicateView::Projection(pp) => pp.projection_ty.parameters.push(pp.ty),
            GenericPredicateView::Error => Seq::empty(),
        }
    }

    open spec fn with_types(v: GenericPredicateView, tys: Seq<TyView>) -> GenericPredicateView {
        match v {
            GenericPredicateView::Implemented(tr) => GenericPredicateView::Implemented(
                TraitRefView { trait_: tr.trait_, substs: tys },
            ),
            GenericPredicateView::Projection(pp) => GenericPredicateView::Projection(
                ProjectionPredicateView {
                    projection_ty: ProjectionTyView {
                        associated_ty: pp.projection_ty.associated_ty,
                        parameters: tys.drop_last(),
                    },
                    ty: tys.last(),
                },
            ),
            GenericPredicateView::Error => GenericPredicateView::Error,
        }
    }

    proof fn lemma_types(v: GenericPredicateView, tys: Seq<TyView>, later: Seq<TyView>) {
        match v {
            GenericPredicateView::Implemented(tr) => {},
            GenericPredicateView::Projection(pp) => {
                ProjectionPredicate::lemma_types(pp, tys, later);
            },
            GenericPredicateView::Error => {
                if tys.len() == 0 {
                    assert(tys =~= Seq::empty());
                }
            },
        }
    }
}

impl TypeWalk for GenericPredicate {
    fn walk<'a>(&'a self, visited: &mut Vec<&'a Ty>)
        ensures
            refs_view(final(visited)@) == refs_view(old(visited)@) + predicate_nodes(self@),
        decreases self,
    {
        match self {
            GenericPredicate::Implemented(trait_ref) => trait_ref.walk(visited),
            GenericPredicate::Projection(projection_pred) => projection_pred.walk(visited),
            GenericPredicate::Error => {},
        }
        proof {
            if let GenericPredicateView::Projection(pp) = self@ {
                let params = pp.projection_ty.parameters;
                lemma_tys_nodes_prefix(params, Self::types(self@), params.len());
            }
            assert(refs_view(visited@) =~= refs_view(old(visited)@) + predicate_nodes(self@));
        }
    }

    fn walk_mut_binders<F: Fn(Ty, usize) -> Ty>(&mut self, f: &F, binders: usize)
        ensures
            forall|g: spec_fn(TyView, usize) -> TyView| #[trigger]
                computes(*f, g) ==> final(self)@ == map_predicate(old(self)@, g, binders),
        decreases *old(self),
    {
        match self {
            GenericPredicate::Implemented(trait_ref) => trait_ref.walk_mut_binders(f, binders),
            GenericPredicate::Projection(projection_pred) => {
                projection_pred.walk_mut_binders(f, binders)
            },
            GenericPredicate::Error => {},
        }
        proof {
            assert forall|g: spec_fn(TyView, usize) -> TyView| #[trigger]
                computes(*f, g) implies self@ == map_predicate(old(self)@, g, binders) by {
                if let GenericPredicateView::Projection(pp) = old(self)@ {
                    let mapped = map_tys(Self::types(old(self)@), g, binders);
                    assert(mapped.drop_last() =~= map_tys(
                        pp.projection_ty.parameters,
                        g,
                        binders,
                    ));
                }
            }
        }
    }
}

impl HasTypes for Ty {
    /// The type itself.
    open spec fn types(v: TyView) -> Seq<TyView> {
        seq![v]
    }

    open spec fn with_types(v: TyView, tys: Seq<TyView>) -> TyView {
        tys[0]
    }

    proof fn lemma_types(v: TyView, tys: Seq<TyView>, later: Seq<TyView>) {
        if tys.len() == 1 {
            assert(seq![tys[0]] =~= tys);
        }
    }
}

impl TypeWalk for Ty {
    fn walk<'a>(&'a self, visited: &mut Vec<&'a Ty>)
        ensures
            refs_view(final(visited)@) == refs_view(old(visited)@) + ty_nodes(self@),
        decreases self,
    {
        match self {
            Ty::Apply(a_ty) => {
                a_ty.parameters.walk(visited);
            },
            Ty::Projection(p_ty) => {
                p_ty.parameters.walk(visited);
            },
            Ty::Dyn(predicates) | Ty::Opaque(predicates) => {
                walk_predicates(predicates, visited);
            },
            Ty::Placeholder(_) | Ty::Bound(_) | Ty::Infer(_) | Ty::Unknown => {},
        }
        let ghost inner = visited@;
        visited.push(self);
        proof {
            let before = refs_view(old(visited)@);
            let below = refs_view(inner).subrange(before.len() as int, inner.len() as int);
            assert(refs_view(inner) =~= before + below);
            assert(refs_view(visited@) =~= refs_view(inner).push(self@));
            assert(ty_nodes(self@) =~= below.push(self@));
            assert(refs_view(visited@) =~= before + ty_nodes(self@));
            assert(tys_nodes(seq![self@], 0) =~= Seq::empty());
            assert(tys_nodes(seq![self@], 1) =~= ty_nodes(self@));
        }
    }

    fn walk_mut_binders<F: Fn(Ty, usize) -> Ty>(&mut self, f: &F, binders: usize)
        ensures
            forall|g: spec_fn(TyView, usize) -> TyView| #[trigger]
                computes(*f, g) ==> final(self)@ == map_ty(old(self)@, g, binders),
        decreases *old(self),
    {
        match self {
            Ty::Apply(a_ty) => {
                a_ty.parameters.walk_mut_binders(f, binders);
            },
            Ty::Projection(p_ty) => {
                p_ty.parameters.walk_mut_binders(f, binders);
            },
            Ty::Dyn(predicates) => {
                let inner = if binders < usize::MAX {
                    binders + 1
                } else {
                    binders
                };
                walk_predicates_mut(predicates, f, inner);
            },
            Ty::Opaque(predicates) => {
                let inner = if binders < usize::MAX {
                    binders + 1
                } else {
                    binders
                };
                walk_predicates_mut(predicates, f, inner);
            },
            Ty::Placeholder(_) | Ty::Bound(_) | Ty::Infer(_) | Ty::Unknown => {},
        }
        let mut node = Ty::Unknown;
        std::mem::swap(self, &mut node);
        *self = f(node, binders);
    }
}

} // verus!
