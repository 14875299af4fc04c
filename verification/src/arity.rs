//! The number of arguments of a type constructor, and whether a type keeps
//! to it.

use vstd::prelude::*;

use crate::db::HirDatabase;
use crate::laws::lemma_all_nodes;
use crate::model::{at_every_depth, each};
use crate::ty::{ApplicationTy, ApplicationTyView, Ty, TyView};
use crate::walk::{all_types, nodes_of, refs_view, TypeWalk};

verus! {

impl ApplicationTyView {
    /// Whether the constructor has as many arguments as it takes, where
    /// that number follows from the constructor alone.
    pub open spec fn fixed_arity_ok(self) -> bool {
        self.ctor.fixed_arity() matches Some(n) ==> self.parameters.len() == n
    }

    /// Whether the constructor has as many arguments as it takes.
    pub open spec fn arity_ok(self, db: &HirDatabase) -> bool {
        self.ctor.known_to(db) && self.parameters.len() == self.ctor.arity(db)
    }
}

impl TyView {
    /// Whether this node, if it is an application, has as many arguments as
    /// its constructor takes, where that number follows from the
    /// constructor alone.
    pub open spec fn fixed_arity_ok(self) -> bool {
        self matches TyView::Apply(a) ==> a.fixed_arity_ok()
    }
}

/// The property of a node that, if it applies a constructor, it applies it
/// to as many arguments as the constructor takes.
pub open spec fn arity_here(db: &HirDatabase) -> spec_fn(TyView) -> bool {
    |t: TyView| t matches TyView::Apply(a) ==> a.arity_ok(db)
}

/// [`arity_here`], at whatever depth the node stands.
pub open spec fn has_arity(db: &HirDatabase) -> spec_fn(TyView, usize) -> bool {
    at_every_depth(arity_here(db))
}

impl ApplicationTy {
    /// Whether the constructor is applied to as many arguments as it
    /// takes, as far as `db` knows the constructor.
    pub fn arity_ok(&self, db: &HirDatabase) -> (r: bool)
        ensures
            r == self@.arity_ok(db),
    {
        match self.ctor.as_generic_def() {
            Some(def) => match db.def_data(def) {
                Some(data) => data.generics.len() == self.parameters.len(),
                None => false,
            },
            None => self.ctor.num_ty_params(db) == self.parameters.len(),
        }
    }
}

/// Whether every constructor inside `value` is applied to as many arguments
/// as it takes. Where it is not, the value is not one that the rest of the
/// library is meant for.
pub fn check_arity<T: TypeWalk>(value: &T, db: &HirDatabase) -> (r: bool)
    ensures
        r == all_types::<T>(value@, has_arity(db), 0),
{
    let mut visited: Vec<&Ty> = Vec::new();
    value.walk(&mut visited);
    proof {
        lemma_all_nodes::<T>(value@, arity_here(db), 0);
        assert(refs_view(visited@) =~= nodes_of::<T>(value@));
    }
    let n = visited.len();
    let mut i: usize = 0;
    while i < n
        invariant
            n == visited@.len(),
            i <= n,
            refs_view(visited@) == nodes_of::<T>(value@),
            all_types::<T>(value@, has_arity(db), 0) <==> each(
                nodes_of::<T>(value@),
                arity_here(db),
            ),
            each(refs_view(visited@).take(i as int), arity_here(db)),
        decreases n - i,
    {
        if let Ty::Apply(a_ty) = visited[i] {
            if !a_ty.arity_ok(db) {
                proof {
                    let nodes = refs_view(visited@);
                    assert(nodes[i as int] == visited@[i as int]@);
                    assert(!arity_here(db)(nodes[i as int]));
                }
                return false;
            }
        }
        proof {
            let nodes = refs_view(visited@);
            assert(nodes[i as int] == visited@[i as int]@);
            assert forall|j: int| 0 <= j < i + 1 implies arity_here(db)(
                #[trigger] nodes.take(i + 1)[j],
            ) by {
                if j < i {
                    assert(nodes.take(i + 1)[j] == nodes.take(i as int)[j]);
                }
            }
        }
        i += 1;
    }
    proof {
        assert(refs_view(visited@).take(n as int) =~= refs_view(visited@));
    }
    true
}

} // verus!
