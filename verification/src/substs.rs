//! Lists of generic arguments and their builder.

use vstd::prelude::*;

use crate::db::{Generics, HirDatabase};
use crate::ids::{GenericDefId, TypeParamId};
use crate::ty::{tys_view, Substs, Ty, TyView, TypeCtor};

verus! {

/// The list that takes each of `params` to itself.
pub open spec fn placeholders(params: Seq<TypeParamId>) -> Seq<TyView> {
    Seq::new(params.len(), |i: int| TyView::Placeholder(params[i]))
}

/// The list of `n` bound variables that count up from `start`.
pub open spec fn bound_range(start: int, n: nat) -> Seq<TyView> {
    Seq::new(n, |i: int| TyView::Bound((start + i) as u32))
}

/// The list of `n` unknown types.
pub open spec fn unknowns(n: nat) -> Seq<TyView> {
    Seq::new(n, |i: int| TyView::Unknown)
}

impl Substs {
    /// The number of arguments.
    pub fn len(&self) -> (n: usize)
        ensures
            n == self@.len(),
    {
        self.as_vec().len()
    }

    /// The argument at position `idx`.
    pub fn at(&self, idx: usize) -> (ty: &Ty)
        requires
            idx < self@.len(),
        ensures
            ty@ == self@[idx as int],
            decreases_to!(*self => *ty),
    {
        &self.as_vec()[idx]
    }

    /// The list without arguments.
    pub fn empty() -> (r: Substs)
        ensures
            r@ == Seq::<TyView>::empty(),
    {
        let r = Substs::from_vec(Vec::new());
        assert(r@ =~= Seq::empty());
        r
    }

    /// The list of the one argument `ty`.
    pub fn single(ty: Ty) -> (r: Substs)
        ensures
            r@ == seq![ty@],
    {
        let mut v: Vec<Ty> = Vec::new();
        v.push(ty);
        let r = Substs::from_vec(v);
        assert(r@ =~= seq![ty@]);
        r
    }

    /// The first `n` arguments, or all of them where there are fewer.
    pub fn prefix(&self, n: usize) -> (r: Substs)
        ensures
            r@ == self@.take(
                if n <= self@.len() {
                    n as int
                } else {
                    self@.len() as int
                },
            ),
    {
        let tys = self.as_vec();
        let k = if n <= tys.len() {
            n
        } else {
            tys.len()
        };
        let mut v: Vec<Ty> = Vec::with_capacity(k);
        let mut i: usize = 0;
        while i < k
            invariant
                k <= tys@.len(),
                i <= k,
                v@.len() == i,
                forall|j: int| 0 <= j < i ==> v@[j] == tys@[j],
            decreases k - i,
        {
            v.push(tys[i].clone());
            i += 1;
        }
        let r = Substs::from_vec(v);
        assert(r@ =~= self@.take(k as int));
        r
    }

    /// The one argument of a list that holds one.
    pub fn as_single(&self) -> (ty: &Ty)
        requires
            self@.len() == 1,
        ensures
            ty@ == self@[0],
            decreases_to!(*self => *ty),
    {
        &self.as_vec()[0]
    }

    /// Return Substs that replace each parameter by itself (i.e. `Ty::Placeholder`).
    pub fn type_params_for_generics(generic_params: &Generics) -> (r: Substs)
        ensures
            r@ == placeholders(generic_params@),
    {
        let n = generic_params.len();
        let mut v: Vec<Ty> = Vec::with_capacity(n);
        let mut i: usize = 0;
        while i < n
            invariant
                n == generic_params@.len(),
                i <= n,
                v@.len() == i,
                forall|j: int| 0 <= j < i ==> v@[j]@ == TyView::Placeholder(generic_params@[j]),
            decreases n - i,
        {
            v.push(Ty::Placeholder(generic_params.params[i]));
            i += 1;
        }
        let r = Substs::from_vec(v);
        assert(r@ =~= placeholders(generic_params@));
        r
    }

    /// Return Substs that replace each parameter of `def` by itself (i.e.
    /// `Ty::Placeholder`).
    pub fn type_params(db: &HirDatabase, def: GenericDefId) -> (r: Substs)
        requires
            db.declares(def),
        ensures
            db.lookup(def) matches Some(data) && r@ == placeholders(data.generics),
    {
        let params = db.generic_params(def);
        Substs::type_params_for_generics(params)
    }

    /// Return Substs that replace each parameter by a bound variable: the
    /// one at position `i` by `Ty::Bound(i)`.
    pub fn bound_vars(generic_params: &Generics) -> (r: Substs)
        requires
            generic_params@.len() <= u32::MAX + 1,
        ensures
            r@ == bound_range(0, generic_params@.len()),
    {
        let n = generic_params.len();
        let mut v: Vec<Ty> = Vec::with_capacity(n);
        let mut idx: usize = 0;
        while idx < n
            invariant
                n == generic_params@.len(),
                n <= u32::MAX + 1,
                idx <= n,
                v@.len() == idx,
                forall|j: int| 0 <= j < idx ==> v@[j]@ == TyView::Bound(j as u32),
            decreases n - idx,
        {
            v.push(Ty::Bound(idx as u32));
            idx += 1;
        }
        let r = Substs::from_vec(v);
        assert(r@ =~= bound_range(0, generic_params@.len()));
        r
    }

    /// A builder for the arguments of the declaration `def`.
    pub fn build_for_def(db: &HirDatabase, def: GenericDefId) -> (r: SubstsBuilder)
        requires
            db.declares(def),
        ensures
            r@.staged.len() == 0,
            db.lookup(def) matches Some(data) && r@.param_count == data.generics.len(),
    {
        let params = db.generic_params(def);
        let param_count = params.len();
        Substs::builder(param_count)
    }

    /// A builder for arguments for the type parameters `generic_params`.
    pub fn build_for_generics(generic_params: &Generics) -> (r: SubstsBuilder)
        ensures
            r@.staged.len() == 0,
            r@.param_count == generic_params@.len(),
    {
        Substs::builder(generic_params.len())
    }

    /// A builder for the arguments of the type constructor `type_ctor`.
    pub fn build_for_type_ctor(db: &HirDatabase, type_ctor: TypeCtor) -> (r: SubstsBuilder)
        requires
            type_ctor.known_to(db),
        ensures
            r@.staged.len() == 0,
            r@.param_count == type_ctor.arity(db),
    {
        Substs::builder(type_ctor.num_ty_params(db))
    }

    /// A builder for `param_count` arguments.
    fn builder(param_count: usize) -> (r: SubstsBuilder)
        ensures
            r@.staged.len() == 0,
            r@.param_count == param_count,
    {
        SubstsBuilder { vec: Vec::with_capacity(param_count), param_count }
    }
}

impl std::ops::Deref for Substs {
    type Target = [Ty];

    fn deref(&self) -> (r: &[Ty])
        ensures
            tys_view(r@) == self@,
    {
        self.as_vec().as_slice()
    }
}

/// The arguments staged so far for a declaration that takes `param_count`
/// of them.
#[derive(Debug, Clone)]
pub struct SubstsBuilder {
    vec: Vec<Ty>,
    param_count: usize,
}

/// The model of a [`SubstsBuilder`].
pub struct SubstsBuilderView {
    /// The arguments staged so far.
    pub staged: Seq<TyView>,
    /// The number of arguments that the finished list has to hold.
    pub param_count: nat,
}

impl SubstsBuilderView {
    /// The number of arguments that are still missing.
    pub open spec fn remaining(self) -> int {
        self.param_count - self.staged.len()
    }
}

impl View for SubstsBuilder {
    type V = SubstsBuilderView;

    closed spec fn view(&self) -> SubstsBuilderView {
        SubstsBuilderView { staged: tys_view(self.vec@), param_count: self.param_count as nat }
    }
}

impl SubstsBuilder {
    /// The finished list. The builder has to hold exactly as many arguments
    /// as the declaration takes.
    pub fn build(self) -> (r: Substs)
        requires
            self@.staged.len() == self@.param_count,
        ensures
            r@ == self@.staged,
    {
        Substs::from_vec(self.vec)
    }

    /// Stages `ty` as the next argument.
    pub fn push(self, ty: Ty) -> (r: Self)
        ensures
            r@.staged == self@.staged.push(ty@),
            r@.param_count == self@.param_count,
    {
        let mut this = self;
        this.vec.push(ty);
        assert(this@.staged =~= self@.staged.push(ty@));
        this
    }

    /// The number of arguments that are still missing.
    fn remaining(&self) -> (n: usize)
        requires
            self@.staged.len() <= self@.param_count,
        ensures
            n == self@.remaining(),
    {
        self.param_count - self.vec.len()
    }

    /// Fills the missing arguments with the bound variables
    /// `starting_from`, `starting_from + 1`, and so on.
    pub fn fill_with_bound_vars(self, starting_from: u32) -> (r: Self)
        requires
            self@.staged.len() <= self@.param_count,
            starting_from + self@.remaining() <= u32::MAX + 1,
        ensures
            r@.staged == self@.staged + bound_range(
                starting_from as int,
                self@.remaining() as nat,
            ),
            r@.param_count == self@.param_count,
            r@.remaining() == 0,
    {
        let n = self.remaining();
        let mut this = self;
        let mut i: usize = 0;
        while i < n
            invariant
                i <= n,
                n == self@.remaining(),
                starting_from + n <= u32::MAX + 1,
                this.param_count == self.param_count,
                this.vec@.len() == self.vec@.len() + i,
                forall|j: int| 0 <= j < self.vec@.len() ==> this.vec@[j] == self.vec@[j],
                forall|j: int|
                    self.vec@.len() <= j < self.vec@.len() + i ==> this.vec@[j]@ == TyView::Bound(
                        (starting_from + (j - self.vec@.len())) as u32,
                    ),
            decreases n - i,
        {
            this.vec.push(Ty::Bound(starting_from + i as u32));
            i += 1;
        }
        assert(this@.staged =~= self@.staged + bound_range(starting_from as int, n as nat));
        this
    }

    /// Fills the missing arguments with `Ty::Unknown`.
    pub fn fill_with_unknown(self) -> (r: Self)
        requires
            self@.staged.len() <= self@.param_count,
        ensures
            r@.staged == self@.staged + unknowns(self@.remaining() as nat),
            r@.param_count == self@.param_count,
            r@.remaining() == 0,
    {
        let n = self.remaining();
        let mut this = self;
        let mut i: usize = 0;
        while i < n
            invariant
                i <= n,
                n == self@.remaining(),
                this.param_count == self.param_count,
                this.vec@.len() == self.vec@.len() + i,
                forall|j: int| 0 <= j < self.vec@.len() ==> this.vec@[j] == self.vec@[j],
                forall|j: int|
                    self.vec@.len() <= j < self.vec@.len() + i ==> this.vec@[j]@
                        == TyView::Unknown,
            decreases n - i,
        {
            this.vec.push(Ty::Unknown);
            i += 1;
        }
        assert(this@.staged =~= self@.staged + unknowns(n as nat));
        this
    }

    /// Fills the missing arguments with the first types of `filler`, which
    /// has to hold enough of them; the rest of `filler` is left out.
    pub fn fill(self, filler: Vec<Ty>) -> (r: Self)
        requires
            self@.staged.len() <= self@.param_count,
            self@.remaining() <= filler@.len(),
        ensures
            r@.staged == self@.staged + tys_view(filler@).take(self@.remaining()),
            r@.param_count == self@.param_count,
            r@.remaining() == 0,
    {
        let n = self.remaining();
        let mut this = self;
        let mut i: usize = 0;
        while i < n
            invariant
                i <= n,
                n == self@.remaining(),
                n <= filler@.len(),
                this.param_count == self.param_count,
                this.vec@.len() == self.vec@.len() + i,
                forall|j: int| 0 <= j < self.vec@.len() ==> this.vec@[j] == self.vec@[j],
                forall|j: int|
                    self.vec@.len() <= j < self.vec@.len() + i ==> this.vec@[j] == filler@[j
                        - self.vec@.len()],
            decreases n - i,
        {
            this.vec.push(filler[i].clone());
            i += 1;
        }
        assert(this@.staged =~= self@.staged + tys_view(filler@).take(n as int));
        this
    }

    /// Stages the arguments of the parent (the trait or impl around the
    /// declaration), which come before the declaration's own. Nothing may
    /// be staged yet, and the parent's arguments have to fit.
    pub fn use_parent_substs(self, parent_substs: &Substs) -> (r: Self)
        requires
            self@.staged.len() == 0,
            parent_substs@.len() <= self@.param_count,
        ensures
            r@.staged == parent_substs@,
            r@.param_count == self@.param_count,
    {
        let parent = parent_substs.as_vec();
        let n = parent.len();
        let mut this = self;
        let mut i: usize = 0;
        while i < n
            invariant
                i <= n,
                n == parent@.len(),
                this.param_count == self.param_count,
                this.vec@.len() == i,
                forall|j: int| 0 <= j < i ==> this.vec@[j] == parent@[j],
            decreases n - i,
        {
            this.vec.push(parent[i].clone());
            i += 1;
        }
        assert(this@.staged =~= parent_substs@);
        this
    }
}

} // verus!
