//! Values under binders.

use vstd::prelude::*;

use crate::ty::Substs;
use crate::model::{free_below, no_infer_var, subst_fn};
use crate::walk::{all_types, map_types, HasTypes, TypeWalk};

verus! {

/// A value that is generic over `num_binders` bound variables: inside
/// `value`, the free bound variables `0` to `num_binders - 1` stand for them.
#[derive(Clone, Copy, PartialEq, Eq, Debug)]
pub struct Binders<T> {
    pub num_binders: usize,
    pub value: T,
}

impl<T: View> View for Binders<T> {
    type V = Binders<T::V>;

    open spec fn view(&self) -> Binders<T::V> {
        Binders { num_binders: self.num_binders, value: self.value@ }
    }
}

/// Whether the bound variables inside the value are at most those of the
/// binders: each refers to a binder inside the value or to one of the
/// `num_binders` binders around it.
pub open spec fn binds_all<T: HasTypes>(b: Binders<T::V>) -> bool {
    all_types::<T>(b.value, free_below(b.num_binders as nat), 0)
}

impl<T> Binders<T> {
    /// `value` under `num_binders` binders.
    pub fn new(num_binders: usize, value: T) -> (r: Self)
        ensures
            r.num_binders == num_binders,
            r.value == value,
    {
        Self { num_binders, value }
    }
}

impl<T: TypeWalk> Binders<T> {
    /// Substitutes all variables.
    pub fn subst(self, subst: &Substs) -> (r: T)
        requires
            subst@.len() == self.num_binders,
        ensures
            r@ == map_types::<T>(self.value@, subst_fn(subst@), 0),
    {
        self.value.subst_bound_vars(subst)
    }

    /// Substitutes just a prefix of the variables (shifting the rest).
    pub fn subst_prefix(self, subst: &Substs) -> (r: Binders<T>)
        requires
            subst@.len() < self.num_binders,
        ensures
            r.num_binders == self.num_binders - subst@.len(),
            r.value@ == map_types::<T>(self.value@, subst_fn(subst@), 0),
    {
        Binders::new(self.num_binders - subst.len(), self.value.subst_bound_vars(subst))
    }
}

/// A claim, which nothing here checks, that the value holds no inference
/// variables: they have been replaced by the bound variables `0` to
/// `num_vars - 1`. Whoever builds one has to see to it.
#[derive(Debug, Clone, PartialEq, Eq, Hash)]
pub struct Canonical<T> {
    pub value: T,
    pub num_vars: usize,
}

impl<T: View> View for Canonical<T> {
    type V = Canonical<T::V>;

    open spec fn view(&self) -> Canonical<T::V> {
        Canonical { value: self.value@, num_vars: self.num_vars }
    }
}

/// What a canonical value claims: no inference variable is inside it, and
/// its bound variables are at most those of the `num_vars` variables.
pub open spec fn is_canonical<T: HasTypes>(c: Canonical<T::V>) -> bool {
    all_types::<T>(c.value, no_infer_var(), 0) && all_types::<T>(
        c.value,
        free_below(c.num_vars as nat),
        0,
    )
}

} // verus!
