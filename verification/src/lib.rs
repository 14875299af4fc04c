//! The type representation of a language with generics and traits, and the
//! substitution of generic arguments into it.
//!
//! A type ([`Ty`]) is a tree: a type constructor ([`TypeCtor`]) applied to a
//! list of arguments ([`Substs`]), or a projection, a placeholder, a bound
//! variable, an inference variable, a trait object, an opaque type or the
//! unknown type. Values that are generic over type variables stand under
//! [`Binders`], and their variables are numbered by the binders between a
//! use and its binder. Every value that holds types can be walked and
//! rewritten ([`TypeWalk`]); substitution and shifting are rewrites.
//!
//! The contracts speak of the views of these values, the trees with
//! mathematical sequences in them ([`ty::TyView`]); [`model`] says what the
//! rewrites are on views, and [`laws`] what holds of them.
//!
//! Besides, the crate holds a few plain records that an editor is handed:
//! the result of a search for references ([`references`]), what can be run
//! in a file ([`runnables`]) and the folders of a project
//! ([`project_model`]).

pub mod arity;
pub mod binders;
pub mod ctor;
pub mod db;
pub mod ids;
pub mod laws;
pub mod model;
pub mod predicate;
pub mod primitive;
pub mod project_model;
pub mod references;
pub mod runnables;
pub mod sig;
pub mod substs;
pub mod ty;
pub mod ty_ops;
pub mod walk;

pub use binders::{Binders, Canonical};
pub use db::{DefData, Generics, HirDatabase};
pub use ids::{CallableDef, TypeCtorId};
pub use sig::PolyFnSig;
pub use substs::SubstsBuilder;
pub use ty::{
    ApplicationTy, FnSig, GenericPredicate, InferTy, ProjectionPredicate, ProjectionTy, Substs,
    TraitRef, Ty, TypeCtor,
};
pub use walk::{HasTypes, TypeWalk};
