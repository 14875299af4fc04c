//! The type values and their mathematical model.
//!
//! Every list inside a type is shared behind a reference count, so a clone
//! of a type copies one node and shares the rest. The contracts of this
//! crate do not speak of the shared lists but of the *view* of a value: the
//! same tree with mathematical sequences in their place.

use std::sync::Arc;
use vstd::prelude::*;

use crate::ids::{
    AdtId, CallableDef, DefWithBodyId, ExprId, Mutability, TraitId, TypeAliasId, TypeParamId,
};
use crate::primitive::{FloatTy, IntTy, Uncertain};

verus! {

/// A type constructor or type name: this might be something like the primitive
/// type `bool`, a struct like `Vec`, or things like function pointers or
/// tuples.
#[derive(Clone, Copy, PartialEq, Eq, Debug, Hash)]
pub enum TypeCtor {
    /// The primitive boolean type. Written as `bool`.
    Bool,
    /// The primitive character type. Written as `char`.
    Char,
    /// A primitive integer type. For example, `i32`.
    Int(Uncertain<IntTy>),
    /// A primitive floating-point type.
    Float(Uncertain<FloatTy>),
    /// Structures, enumerations and unions.
    Adt(AdtId),
    /// The pointee of a string slice. Written as `str`.
    Str,
    /// The pointee of an array slice. Written as `[T]`.
    Slice,
    /// An array with the given length. Written as `[T; n]`.
    Array,
    /// A raw pointer. Written as `*mut T` or `*const T`.
    RawPtr(Mutability),
    /// A reference. Written as `&'a mut T` or `&'a T`.
    Ref(Mutability),
    /// The anonymous type of a function declaration, of a tuple struct
    /// constructor or of a tuple variant constructor.
    FnDef(CallableDef),
    /// A pointer to a function. Written as `fn() -> i32`. Its arguments are
    /// the parameter types followed by the return type.
    FnPtr { num_args: u16 },
    /// The never type `!`.
    Never,
    /// A tuple type. For example, `(i32, bool)`.
    Tuple { cardinality: u16 },
    /// An associated type like `Iterator::Item` that could not be
    /// normalised to anything better, applied to the trait's arguments.
    AssociatedType(TypeAliasId),
    /// The type of a specific closure. Its one argument is a `FnPtr` type
    /// that holds the closure's signature.
    Closure { def: DefWithBodyId, expr: ExprId },
}

/// A type variable of type inference.
#[derive(Clone, Copy, PartialEq, Eq, Debug, Hash, Structural)]
pub struct TypeVarId(pub u32);

/// The kind of an inference variable, which decides what it falls back to
/// when nothing more is learnt about it.
#[derive(Clone, Copy, PartialEq, Eq, Debug, Hash, Structural)]
pub enum InferTy {
    TypeVar(TypeVarId),
    IntVar(TypeVarId),
    FloatVar(TypeVarId),
    MaybeNeverTypeVar(TypeVarId),
}

/// A list of substitutions for generic parameters, in the order of the
/// parameters of the declaration it is for.
#[derive(PartialEq, Eq, Debug, Hash)]
pub struct Substs(pub(crate) Arc<Vec<Ty>>);

/// A nominal type with (maybe 0) type parameters. This might be a primitive
/// type like `bool`, a struct, tuple, function pointer, reference or
/// several other things.
#[derive(PartialEq, Eq, Debug, Hash)]
pub struct ApplicationTy {
    pub ctor: TypeCtor,
    pub parameters: Substs,
}

/// An unnormalised projection like `<T0 as Trait<T1..Tn>>::Foo`. The
/// parameters are those of the trait, `T0` first.
#[derive(PartialEq, Eq, Debug, Hash)]
pub struct ProjectionTy {
    pub associated_ty: TypeAliasId,
    pub parameters: Substs,
}

/// A trait with its type parameters, the `Self` type first: one concrete
/// type implementing the trait.
#[derive(PartialEq, Eq, Debug, Hash)]
pub struct TraitRef {
    pub trait_: TraitId,
    pub substs: Substs,
}

/// The claim that a projection is equal to a type, as in
/// `Iterator<Item = T>`.
#[derive(PartialEq, Eq, Debug, Hash)]
pub struct ProjectionPredicate {
    pub projection_ty: ProjectionTy,
    pub ty: Ty,
}

/// A condition on the parameters of a generic item.
#[derive(PartialEq, Eq, Debug, Hash)]
pub enum GenericPredicate {
    /// The given trait needs to be implemented for its type parameters.
    Implemented(TraitRef),
    /// An associated type binding like in `Iterator<Item = T>`.
    Projection(ProjectionPredicate),
    /// The trait reference could not be resolved. This is a value like the
    /// others: what is known still flows on.
    Error,
}

/// A type.
#[derive(PartialEq, Eq, Debug, Hash)]
pub enum Ty {
    /// A type constructor applied to its arguments.
    Apply(ApplicationTy),
    /// An unnormalised projection.
    Projection(ProjectionTy),
    /// A type parameter seen from inside its declaration: it stands for
    /// *some* type, which is fixed but not known.
    Placeholder(TypeParamId),
    /// A bound type variable, numbered by counting the binders between its
    /// use and the binder that introduces it, from the inside out.
    Bound(u32),
    /// A type variable used during type checking.
    Infer(InferTy),
    /// A trait object. The predicates are quantified over the `Self` type:
    /// inside them `Ty::Bound(0)` is the `Self` type.
    Dyn(Arc<Vec<GenericPredicate>>),
    /// An opaque type (`impl Trait`). The predicates are quantified over the
    /// `Self` type as in `Ty::Dyn`.
    Opaque(Arc<Vec<GenericPredicate>>),
    /// A type that could not be computed, or has not been inferred yet.
    Unknown,
}

/// A function signature as seen by type inference: several parameter types
/// and one return type, kept in one list with the return type last.
#[derive(PartialEq, Eq, Debug)]
pub struct FnSig {
    pub(crate) params_and_return: Substs,
}

/// The model of an [`ApplicationTy`].
pub struct ApplicationTyView {
    pub ctor: TypeCtor,
    pub parameters: Seq<TyView>,
}

/// The model of a [`ProjectionTy`].
pub struct ProjectionTyView {
    pub associated_ty: TypeAliasId,
    pub parameters: Seq<TyView>,
}

/// The model of a [`TraitRef`].
pub struct TraitRefView {
    pub trait_: TraitId,
    pub substs: Seq<TyView>,
}

/// The model of a [`ProjectionPredicate`].
pub struct ProjectionPredicateView {
    pub projection_ty: ProjectionTyView,
    pub ty: TyView,
}

/// The model of a [`GenericPredicate`].
pub enum GenericPredicateView {
    Implemented(TraitRefView),
    Projection(ProjectionPredicateView),
    Error,
}

/// The model of a [`Ty`]: the same tree, with sequences for its lists.
pub enum TyView {
    Apply(ApplicationTyView),
    Projection(ProjectionTyView),
    Placeholder(TypeParamId),
    Bound(u32),
    Infer(InferTy),
    Dyn(Seq<GenericPredicateView>),
    Opaque(Seq<GenericPredicateView>),
    Unknown,
}

/// The model of the type `t`.
pub open spec fn ty_view(t: Ty) -> TyView
    decreases t,
{
    match t {
        Ty::Apply(a) => TyView::Apply(
            ApplicationTyView { ctor: a.ctor, parameters: a.parameters.view() },
        ),
        Ty::Projection(p) => TyView::Projection(
            ProjectionTyView { associated_ty: p.associated_ty, parameters: p.parameters.view() },
        ),
        Ty::Placeholder(id) => TyView::Placeholder(id),
        Ty::Bound(idx) => TyView::Bound(idx),
        Ty::Infer(v) => TyView::Infer(v),
        Ty::Dyn(predicates) => TyView::Dyn(predicates_view(predicates@)),
        Ty::Opaque(predicates) => TyView::Opaque(predicates_view(predicates@)),
        Ty::Unknown => TyView::Unknown,
    }
}

/// The models of the types in `s`, in order.
pub open spec fn tys_view(s: Seq<Ty>) -> Seq<TyView>
    decreases s,
{
    Seq::new(
        s.len(),
        |i: int|
            if 0 <= i < s.len() {
                ty_view(s[i])
            } else {
                TyView::Unknown
            },
    )
}

/// The model of the predicate `p`.
pub open spec fn predicate_view(p: GenericPredicate) -> GenericPredicateView
    decreases p,
{
    match p {
        GenericPredicate::Implemented(tr) => GenericPredicateView::Implemented(
            TraitRefView { trait_: tr.trait_, substs: tr.substs.view() },
        ),
        GenericPredicate::Projection(pp) => GenericPredicateView::Projection(
            ProjectionPredicateView {
                projection_ty: ProjectionTyView {
                    associated_ty: pp.projection_ty.associated_ty,
                    parameters: pp.projection_ty.parameters.view(),
                },
                ty: ty_view(pp.ty),
            },
        ),
        GenericPredicate::Error => GenericPredicateView::Error,
    }
}

/// The models of the predicates in `s`, in order.
pub open spec fn predicates_view(s: Seq<GenericPredicate>) -> Seq<GenericPredicateView>
    decreases s,
{
    Seq::new(
        s.len(),
        |i: int|
            if 0 <= i < s.len() {
                predicate_view(s[i])
            } else {
                GenericPredicateView::Error
            },
    )
}

impl View for Substs {
    type V = Seq<TyView>;

    closed spec fn view(&self) -> Seq<TyView>
        decreases self,
    {
        tys_view(self.0@)
    }
}

impl Substs {
    /// The list that holds the types of `v`.
    pub(crate) fn from_vec(v: Vec<Ty>) -> (s: Substs)
        ensures
            s@ == tys_view(v@),
    {
        Substs(Arc::new(v))
    }

    /// The types of the list.
    pub(crate) fn as_vec(&self) -> (v: &Vec<Ty>)
        ensures
            tys_view(v@) == self@,
            decreases_to!(*self => *v),
    {
        &*self.0
    }
}

impl View for Ty {
    type V = TyView;

    open spec fn view(&self) -> TyView {
        ty_view(*self)
    }
}

impl View for ApplicationTy {
    type V = ApplicationTyView;

    open spec fn view(&self) -> ApplicationTyView {
        ApplicationTyView { ctor: self.ctor, parameters: self.parameters@ }
    }
}

impl View for ProjectionTy {
    type V = ProjectionTyView;

    open spec fn view(&self) -> ProjectionTyView {
        ProjectionTyView { associated_ty: self.associated_ty, parameters: self.parameters@ }
    }
}

impl View for TraitRef {
    type V = TraitRefView;

    open spec fn view(&self) -> TraitRefView {
        TraitRefView { trait_: self.trait_, substs: self.substs@ }
    }
}

impl View for ProjectionPredicate {
    type V = ProjectionPredicateView;

    open spec fn view(&self) -> ProjectionPredicateView {
        ProjectionPredicateView { projection_ty: self.projection_ty@, ty: self.ty@ }
    }
}

impl View for GenericPredicate {
    type V = GenericPredicateView;

    open spec fn view(&self) -> GenericPredicateView {
        predicate_view(*self)
    }
}

impl View for FnSig {
    type V = Seq<TyView>;

    closed spec fn view(&self) -> Seq<TyView> {
        self.params_and_return@
    }
}

impl FnSig {
    /// The signature that keeps its types in `list`.
    pub(crate) fn from_list(list: Substs) -> (sig: FnSig)
        ensures
            sig@ == list@,
    {
        FnSig { params_and_return: list }
    }

    /// The list of the parameter types and the return type.
    pub(crate) fn as_list(&self) -> (list: &Substs)
        ensures
            list@ == self@,
    {
        &self.params_and_return
    }

    /// The same, to rewrite in place.
    pub(crate) fn as_list_mut(&mut self) -> (list: &mut Substs)
        ensures
            list@ == old(self)@,
            final(self)@ == final(list)@,
    {
        &mut self.params_and_return
    }
}

impl Clone for FnSig {
    fn clone(&self) -> (r: Self)
        ensures
            r == *self,
    {
        FnSig { params_and_return: self.params_and_return.clone() }
    }
}

impl Clone for Substs {
    fn clone(&self) -> (r: Self)
        ensures
            r == *self,
    {
        Substs(Arc::clone(&self.0))
    }
}

impl Clone for ApplicationTy {
    fn clone(&self) -> (r: Self)
        ensures
            r == *self,
    {
        ApplicationTy { ctor: self.ctor, parameters: self.parameters.clone() }
    }
}

impl Clone for ProjectionTy {
    fn clone(&self) -> (r: Self)
        ensures
            r == *self,
    {
        ProjectionTy { associated_ty: self.associated_ty, parameters: self.parameters.clone() }
    }
}

impl Clone for TraitRef {
    fn clone(&self) -> (r: Self)
        ensures
            r == *self,
    {
        TraitRef { trait_: self.trait_, substs: self.substs.clone() }
    }
}

impl Clone for Ty {
    fn clone(&self) -> (r: Self)
        ensures
            r == *self,
    {
        match self {
            Ty::Apply(a) => Ty::Apply(a.clone()),
            Ty::Projection(p) => Ty::Projection(p.clone()),
            Ty::Placeholder(id) => Ty::Placeholder(*id),
            Ty::Bound(idx) => Ty::Bound(*idx),
            Ty::Infer(v) => Ty::Infer(*v),
            Ty::Dyn(predicates) => Ty::Dyn(Arc::clone(predicates)),
            Ty::Opaque(predicates) => Ty::Opaque(Arc::clone(predicates)),
            Ty::Unknown => Ty::Unknown,
        }
    }
}

impl Clone for ProjectionPredicate {
    fn clone(&self) -> (r: Self)
        ensures
            r == *self,
    {
        ProjectionPredicate { projection_ty: self.projection_ty.clone(), ty: self.ty.clone() }
    }
}

impl Clone for GenericPredicate {
    fn clone(&self) -> (r: Self)
        ensures
            r == *self,
    {
        match self {
            GenericPredicate::Implemented(tr) => GenericPredicate::Implemented(tr.clone()),
            GenericPredicate::Projection(pp) => GenericPredicate::Projection(pp.clone()),
            GenericPredicate::Error => GenericPredicate::Error,
        }
    }
}

} // verus!
