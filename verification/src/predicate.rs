//! Trait references, projections and the predicates built from them.

use vstd::prelude::*;

use crate::db::HirDatabase;
use crate::ids::{AssocContainerId, GenericDefId, TraitId};
use crate::ty::{
    GenericPredicate, GenericPredicateView, ProjectionTy, ProjectionTyView, TraitRef,
    TraitRefView, Ty,
};

verus! {

impl ProjectionTyView {
    /// Whether `db` says that the associated type is declared in a trait.
    pub open spec fn declared_in_trait(self, db: &HirDatabase) -> bool {
        db.lookup(GenericDefId::TypeAliasId(self.associated_ty)) matches Some(data)
            && data.container is TraitId
    }

    /// The trait that the associated type is declared in.
    pub open spec fn trait_(self, db: &HirDatabase) -> TraitId {
        db.lookup(GenericDefId::TypeAliasId(self.associated_ty))->Some_0.container->TraitId_0
    }

    /// The trait reference that the projection is taken from: the trait of
    /// the associated type, with the parameters of the projection.
    pub open spec fn trait_ref(self, db: &HirDatabase) -> TraitRefView {
        TraitRefView { trait_: self.trait_(db), substs: self.parameters }
    }
}

impl ProjectionTy {
    /// The trait reference that the projection is taken from. The
    /// associated type has to be declared in a trait.
    pub fn trait_ref(&self, db: &HirDatabase) -> (r: TraitRef)
        requires
            self@.declared_in_trait(db),
        ensures
            r@ == self@.trait_ref(db),
    {
        TraitRef { trait_: self.trait_(db), substs: self.parameters.clone() }
    }

    /// The trait that the associated type is declared in.
    fn trait_(&self, db: &HirDatabase) -> (r: TraitId)
        requires
            self@.declared_in_trait(db),
        ensures
            r == self@.trait_(db),
    {
        match db.container(self.associated_ty) {
            AssocContainerId::TraitId(it) => it,
            _ => unreached(),
        }
    }
}

impl TraitRef {
    /// The type that implements the trait: the first argument.
    pub fn self_ty(&self) -> (r: &Ty)
        requires
            self@.substs.len() >= 1,
        ensures
            r@ == self@.substs[0],
    {
        self.substs.at(0)
    }
}

impl GenericPredicateView {
    /// The trait reference behind the predicate: none where the predicate
    /// could not be resolved.
    pub open spec fn trait_ref(self, db: &HirDatabase) -> Option<TraitRefView> {
        match self {
            GenericPredicateView::Implemented(tr) => Some(tr),
            GenericPredicateView::Projection(proj) => Some(proj.projection_ty.trait_ref(db)),
            GenericPredicateView::Error => None,
        }
    }
}

impl GenericPredicate {
    /// Whether the predicate could not be resolved.
    pub fn is_error(&self) -> (r: bool)
        ensures
            r == (self@ is Error),
    {
        match self {
            GenericPredicate::Error => true,
            _ => false,
        }
    }

    /// Whether the predicate asks for a trait to be implemented.
    pub fn is_implemented(&self) -> (r: bool)
        ensures
            r == (self@ is Implemented),
    {
        match self {
            GenericPredicate::Implemented(_) => true,
            _ => false,
        }
    }

    /// The trait reference behind the predicate: none where the predicate
    /// could not be resolved. The associated type of a projection has to be
    /// declared in a trait.
    pub fn trait_ref(&self, db: &HirDatabase) -> (r: Option<TraitRef>)
        requires
            self@ matches GenericPredicateView::Projection(proj)
                ==> proj.projection_ty.declared_in_trait(db),
        ensures
            match r {
                Some(tr) => self@.trait_ref(db) == Some(tr@),
                None => self@.trait_ref(db) is None,
            },
    {
        match self {
            GenericPredicate::Implemented(tr) => Some(tr.clone()),
            GenericPredicate::Projection(proj) => Some(proj.projection_ty.trait_ref(db)),
            GenericPredicate::Error => None,
        }
    }
}

} // verus!
