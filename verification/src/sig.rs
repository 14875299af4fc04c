//! Function signatures.

use vstd::prelude::*;
use vstd::slice::slice_subrange;

use crate::binders::Binders;
use crate::ty::{tys_view, FnSig, Substs, Ty};

verus! {

/// A polymorphic function signature.
pub type PolyFnSig = Binders<FnSig>;

impl FnSig {
    /// The signature with the parameter types `params` and the return type
    /// `ret`.
    pub fn from_params_and_return(params: Vec<Ty>, ret: Ty) -> (r: FnSig)
        ensures
            r@ == tys_view(params@).push(ret@),
    {
        let mut list = params;
        list.push(ret);
        let r = FnSig::from_list(Substs::from_vec(list));
        assert(r@ =~= tys_view(params@).push(ret@));
        r
    }

    /// The signature that the arguments of a function pointer type spell
    /// out. It shares the list with `substs`.
    pub fn from_fn_ptr_substs(substs: &Substs) -> (r: FnSig)
        ensures
            r@ == substs@,
    {
        FnSig::from_list(substs.clone())
    }

    /// The parameter types: all types of the list but the last.
    pub fn params(&self) -> (r: &[Ty])
        requires
            self@.len() >= 1,
        ensures
            tys_view(r@) == self@.drop_last(),
    {
        let list = self.as_list().as_vec();
        let r = slice_subrange(list.as_slice(), 0, list.len() - 1);
        assert(tys_view(r@) =~= self@.drop_last());
        r
    }

    /// The return type: the last type of the list.
    pub fn ret(&self) -> (r: &Ty)
        requires
            self@.len() >= 1,
        ensures
            r@ == self@.last(),
    {
        let list = self.as_list().as_vec();
        &list[list.len() - 1]
    }
}

} // verus!
