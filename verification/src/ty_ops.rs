//! Building types and taking them apart.

use std::sync::Arc;
use vstd::prelude::*;

use crate::binders::Binders;
use crate::db::HirDatabase;
use crate::ids::{AdtId, CallableDef, Mutability, TraitId};
use crate::ty::{
    predicates_view, ApplicationTy, ApplicationTyView, FnSig, GenericPredicate,
    GenericPredicateView, Substs, Ty, TyView, TypeCtor,
};
use crate::model::{map_tys, subst_fn};

verus! {

impl TyView {
    /// Whether [`Ty::callable_sig`] can find the signature: the database
    /// holds one for a function item, which takes as many arguments as the
    /// item has, and a closure type has its signature type.
    pub open spec fn callable_ok(self, db: &HirDatabase) -> bool
        decreases self,
    {
        match self {
            TyView::Apply(a) => match a.ctor {
                TypeCtor::FnDef(def) => db.has_signature(def) && db.signature(def).num_binders
                    == a.parameters.len(),
                TypeCtor::Closure { .. } => a.parameters.len() >= 1 && a.parameters[0].callable_ok(
                    db,
                ),
                _ => true,
            },
            _ => true,
        }
    }

    /// The signature of a type that can be called: that which a function
    /// pointer type spells out, that of a function item with the item's
    /// type arguments substituted, and that of a closure's signature type.
    pub open spec fn callable_sig(self, db: &HirDatabase) -> Option<Seq<TyView>>
        decreases self,
    {
        match self {
            TyView::Apply(a) => match a.ctor {
                TypeCtor::FnPtr { .. } => Some(a.parameters),
                TypeCtor::FnDef(def) => Some(
                    map_tys(db.signature(def).value, subst_fn(a.parameters), 0),
                ),
                TypeCtor::Closure { .. } => if a.parameters.len() >= 1 {
                    a.parameters[0].callable_sig(db)
                } else {
                    None
                },
                _ => None,
            },
            _ => None,
        }
    }

    /// The trait of a trait object or opaque type: that of the first of its
    /// predicates that asks for a trait to be implemented.
    pub open spec fn inherent_trait(self) -> Option<TraitId> {
        match self {
            TyView::Dyn(predicates) => first_implemented(predicates, 0),
            TyView::Opaque(predicates) => first_implemented(predicates, 0),
            _ => None,
        }
    }
}

/// The trait of the first predicate at or after position `from` that asks
/// for a trait to be implemented.
pub open spec fn first_implemented(predicates: Seq<GenericPredicateView>, from: int) -> Option<
    TraitId,
>
    decreases predicates.len() - from,
{
    if from < 0 || from >= predicates.len() {
        None
    } else if let GenericPredicateView::Implemented(tr) = predicates[from] {
        Some(tr.trait_)
    } else {
        first_implemented(predicates, from + 1)
    }
}

impl Ty {
    /// A type without arguments.
    pub fn simple(ctor: TypeCtor) -> (r: Ty)
        requires
            ctor.fixed_arity() matches Some(n) ==> n == 0,
        ensures
            r@ == TyView::Apply(ApplicationTyView { ctor, parameters: Seq::empty() }),
    {
        Ty::Apply(ApplicationTy { ctor, parameters: Substs::empty() })
    }

    /// A type with one argument.
    pub fn apply_one(ctor: TypeCtor, param: Ty) -> (r: Ty)
        requires
            ctor.fixed_arity() matches Some(n) ==> n == 1,
        ensures
            r@ == TyView::Apply(ApplicationTyView { ctor, parameters: seq![param@] }),
    {
        Ty::Apply(ApplicationTy { ctor, parameters: Substs::single(param) })
    }

    /// The constructor `ctor` applied to `parameters`, which have to be as
    /// many as it takes.
    pub fn apply(ctor: TypeCtor, parameters: Substs) -> (r: Ty)
        requires
            ctor.fixed_arity() matches Some(n) ==> n == parameters@.len(),
        ensures
            r@ == TyView::Apply(ApplicationTyView { ctor, parameters: parameters@ }),
    {
        Ty::Apply(ApplicationTy { ctor, parameters })
    }

    /// The unit type: the tuple without fields.
    pub fn unit() -> (r: Self)
        ensures
            r@ == TyView::Apply(
                ApplicationTyView {
                    ctor: TypeCtor::Tuple { cardinality: 0 },
                    parameters: Seq::empty(),
                },
            ),
    {
        Ty::apply(TypeCtor::Tuple { cardinality: 0 }, Substs::empty())
    }

    /// For a reference type, the type referred to and the mutability.
    pub fn as_reference(&self) -> (r: Option<(&Ty, Mutability)>)
        requires
            self@.fixed_arity_ok(),
        ensures
            match r {
                Some((ty, mutability)) => self@ matches TyView::Apply(a) && a.ctor
                    == TypeCtor::Ref(mutability) && ty@ == a.parameters[0],
                None => !(self@ matches TyView::Apply(a) && a.ctor is Ref),
            },
    {
        match self {
            Ty::Apply(ApplicationTy { ctor: TypeCtor::Ref(mutability), parameters }) => {
                Some((parameters.as_single(), *mutability))
            },
            _ => None,
        }
    }

    /// For an application of a struct, union or enum, the declaration and
    /// the arguments.
    pub fn as_adt(&self) -> (r: Option<(AdtId, &Substs)>)
        ensures
            match r {
                Some((adt, parameters)) => self@ == TyView::Apply(
                    ApplicationTyView { ctor: TypeCtor::Adt(adt), parameters: parameters@ },
                ),
                None => !(self@ matches TyView::Apply(a) && a.ctor is Adt),
            },
    {
        match self {
            Ty::Apply(ApplicationTy { ctor: TypeCtor::Adt(adt_def), parameters }) => {
                Some((*adt_def, parameters))
            },
            _ => None,
        }
    }

    /// For a tuple type, the types of the fields.
    pub fn as_tuple(&self) -> (r: Option<&Substs>)
        ensures
            match r {
                Some(parameters) => self@ matches TyView::Apply(a) && a.ctor is Tuple
                    && parameters@ == a.parameters,
                None => !(self@ matches TyView::Apply(a) && a.ctor is Tuple),
            },
    {
        match self {
            Ty::Apply(ApplicationTy { ctor: TypeCtor::Tuple { .. }, parameters }) => {
                Some(parameters)
            },
            _ => None,
        }
    }

    /// For the type of a function item, the item and the arguments.
    pub fn as_callable(&self) -> (r: Option<(CallableDef, &Substs)>)
        ensures
            match r {
                Some((def, parameters)) => self@ == TyView::Apply(
                    ApplicationTyView { ctor: TypeCtor::FnDef(def), parameters: parameters@ },
                ),
                None => !(self@ matches TyView::Apply(a) && a.ctor is FnDef),
            },
    {
        match self {
            Ty::Apply(ApplicationTy { ctor: TypeCtor::FnDef(callable_def), parameters }) => {
                Some((*callable_def, parameters))
            },
            _ => None,
        }
    }

    /// The type behind one layer of reference or raw pointer.
    pub fn builtin_deref(&self) -> (r: Option<Ty>)
        requires
            self@.fixed_arity_ok(),
        ensures
            match r {
                Some(ty) => self@ matches TyView::Apply(a) && (a.ctor is Ref || a.ctor is RawPtr)
                    && ty@ == a.parameters[0],
                None => !(self@ matches TyView::Apply(a) && (a.ctor is Ref || a.ctor is RawPtr)),
            },
    {
        match self {
            Ty::Apply(a_ty) => match a_ty.ctor {
                TypeCtor::Ref(..) => Some(Ty::clone(a_ty.parameters.as_single())),
                TypeCtor::RawPtr(..) => Some(Ty::clone(a_ty.parameters.as_single())),
                _ => None,
            },
            _ => None,
        }
    }

    /// The signature of a type that can be called: a function pointer, a
    /// function item or a closure.
    pub fn callable_sig(&self, db: &HirDatabase) -> (r: Option<FnSig>)
        requires
            self@.callable_ok(db),
        ensures
            match r {
                Some(sig) => self@.callable_sig(db) == Some(sig@),
                None => self@.callable_sig(db) is None,
            },
        decreases self,
    {
        match self {
            Ty::Apply(a_ty) => match a_ty.ctor {
                TypeCtor::FnPtr { .. } => Some(FnSig::from_fn_ptr_substs(&a_ty.parameters)),
                TypeCtor::FnDef(def) => {
                    let sig = db.callable_item_signature(def);
                    let sig = Binders::new(sig.num_binders, sig.value.clone());
                    Some(sig.subst(&a_ty.parameters))
                },
                TypeCtor::Closure { .. } => {
                    let sig_param = a_ty.parameters.at(0);
                    sig_param.callable_sig(db)
                },
                _ => None,
            },
            _ => None,
        }
    }

    /// If this is a type with type parameters (an ADT or function), replaces
    /// the `Substs` for these type parameters with the given ones. (So e.g. if
    /// `self` is `Option<_>` and the substs contain `u32`, we'll have
    /// `Option<u32>` afterwards.) There have to be as many as before.
    pub fn apply_substs(self, substs: Substs) -> (r: Ty)
        requires
            self@ matches TyView::Apply(a) ==> a.parameters.len() == substs@.len(),
        ensures
            r@ == match self@ {
                TyView::Apply(a) => TyView::Apply(
                    ApplicationTyView { ctor: a.ctor, parameters: substs@ },
                ),
                other => other,
            },
    {
        match self {
            Ty::Apply(ApplicationTy { ctor, parameters: previous_substs }) => {
                Ty::Apply(ApplicationTy { ctor, parameters: substs })
            },
            _ => self,
        }
    }

    /// Returns the type parameters of this type if it has some (i.e. is an ADT
    /// or function); so if `self` is `Option<u32>`, this returns the `u32`.
    pub fn substs(&self) -> (r: Option<Substs>)
        ensures
            match r {
                Some(parameters) => self@ matches TyView::Apply(a) && parameters@ == a.parameters,
                None => !(self@ is Apply),
            },
    {
        match self {
            Ty::Apply(ApplicationTy { parameters, .. }) => Some(parameters.clone()),
            _ => None,
        }
    }

    /// If this is an `impl Trait` or `dyn Trait`, returns that trait.
    pub fn inherent_trait(&self) -> (r: Option<TraitId>)
        ensures
            r == self@.inherent_trait(),
    {
        match self {
            Ty::Dyn(predicates) | Ty::Opaque(predicates) => {
                find_implemented(predicates)
            },
            _ => None,
        }
    }
}

/// The trait of the first of `predicates` that asks for a trait to be
/// implemented.
fn find_implemented(predicates: &Arc<Vec<GenericPredicate>>) -> (r: Option<TraitId>)
    ensures
        r == first_implemented(predicates_view(predicates@), 0),
{
    let n = predicates.len();
    let mut i: usize = 0;
    while i < n
        invariant
            n == predicates@.len(),
            i <= n,
            first_implemented(predicates_view(predicates@), 0) == first_implemented(
                predicates_view(predicates@),
                i as int,
            ),
        decreases n - i,
    {
        if let GenericPredicate::Implemented(tr) = &predicates[i] {
            return Some(tr.trait_);
        }
        i += 1;
    }
    None
}

} // verus!
