//! What can be asked of a type constructor.

use vstd::prelude::*;

use crate::db::HirDatabase;
use crate::ids::{CrateId, GenericDefId};
use crate::ty::TypeCtor;

verus! {

impl TypeCtor {
    /// The generic declaration behind the constructor, for those that stand
    /// for a declaration.
    pub open spec fn generic_def(self) -> Option<GenericDefId> {
        match self {
            TypeCtor::Adt(adt) => Some(GenericDefId::AdtId(adt)),
            TypeCtor::FnDef(callable) => Some(callable.generic_def()),
            TypeCtor::AssociatedType(type_alias) => Some(GenericDefId::TypeAliasId(type_alias)),
            _ => None,
        }
    }

    /// The number of type arguments of a constructor that does not stand for
    /// a declaration: it follows from the constructor alone.
    pub open spec fn fixed_arity(self) -> Option<nat> {
        match self {
            TypeCtor::Bool
            | TypeCtor::Char
            | TypeCtor::Int(_)
            | TypeCtor::Float(_)
            | TypeCtor::Str
            | TypeCtor::Never => Some(0),
            TypeCtor::Slice
            | TypeCtor::Array
            | TypeCtor::RawPtr(_)
            | TypeCtor::Ref(_)
            | TypeCtor::Closure { .. } => Some(1),
            TypeCtor::FnPtr { num_args } => Some((num_args + 1) as nat),
            TypeCtor::Tuple { cardinality } => Some(cardinality as nat),
            TypeCtor::Adt(_) | TypeCtor::FnDef(_) | TypeCtor::AssociatedType(_) => None,
        }
    }

    /// Whether `db` can answer for the constructor: it holds the
    /// declaration behind it, if there is one.
    pub open spec fn known_to(self, db: &HirDatabase) -> bool {
        self.generic_def() matches Some(def) ==> db.declares(def)
    }

    /// The number of type arguments that the constructor takes: its fixed
    /// arity, or the number of type parameters of the declaration behind it.
    pub open spec fn arity(self, db: &HirDatabase) -> nat {
        match self.generic_def() {
            Some(def) => match db.lookup(def) {
                Some(data) => data.generics.len(),
                None => 0,
            },
            None => self.fixed_arity()->Some_0,
        }
    }

    /// The number of type arguments that the constructor takes.
    pub fn num_ty_params(self, db: &HirDatabase) -> (n: usize)
        requires
            self.known_to(db),
        ensures
            n == self.arity(db),
    {
        match self {
            TypeCtor::Bool
            | TypeCtor::Char
            | TypeCtor::Int(_)
            | TypeCtor::Float(_)
            | TypeCtor::Str
            | TypeCtor::Never => 0,
            TypeCtor::Slice
            | TypeCtor::Array
            | TypeCtor::RawPtr(_)
            | TypeCtor::Ref(_)
            | TypeCtor::Closure { .. }  // 1 param representing the signature of the closure
            => 1,
            TypeCtor::Adt(adt) => {
                let generic_params = db.generic_params(GenericDefId::AdtId(adt));
                generic_params.len()
            },
            TypeCtor::FnDef(callable) => {
                let generic_params = db.generic_params(GenericDefId::from(callable));
                generic_params.len()
            },
            TypeCtor::AssociatedType(type_alias) => {
                let generic_params = db.generic_params(GenericDefId::TypeAliasId(type_alias));
                generic_params.len()
            },
            TypeCtor::FnPtr { num_args } => num_args as usize + 1,
            TypeCtor::Tuple { cardinality } => cardinality as usize,
        }
    }

    /// The crate that owns the constructor, for the rules on which crate
    /// may implement which trait for which type. The built-in constructors,
    /// function pointers, tuples and closures have none.
    pub fn krate(self, db: &HirDatabase) -> (r: Option<CrateId>)
        requires
            self.known_to(db),
        ensures
            match self.generic_def() {
                Some(def) => db.lookup(def) matches Some(data) && r == Some(data.krate),
                None => r is None,
            },
    {
        match self {
            TypeCtor::Bool
            | TypeCtor::Char
            | TypeCtor::Int(_)
            | TypeCtor::Float(_)
            | TypeCtor::Str
            | TypeCtor::Never
            | TypeCtor::Slice
            | TypeCtor::Array
            | TypeCtor::RawPtr(_)
            | TypeCtor::Ref(_)
            | TypeCtor::FnPtr { .. }
            | TypeCtor::Tuple { .. } => None,
            // A closure has no crate that matters for coherence.
            TypeCtor::Closure { .. } => None,
            TypeCtor::Adt(adt) => Some(db.krate(GenericDefId::AdtId(adt))),
            TypeCtor::FnDef(callable) => Some(db.krate(GenericDefId::from(callable))),
            TypeCtor::AssociatedType(type_alias) => Some(
                db.krate(GenericDefId::TypeAliasId(type_alias)),
            ),
        }
    }

    /// The generic declaration behind the constructor, whose type
    /// parameters the arguments are for.
    pub fn as_generic_def(self) -> (r: Option<GenericDefId>)
        ensures
            r == self.generic_def(),
    {
        match self {
            TypeCtor::Bool
            | TypeCtor::Char
            | TypeCtor::Int(_)
            | TypeCtor::Float(_)
            | TypeCtor::Str
            | TypeCtor::Never
            | TypeCtor::Slice
            | TypeCtor::Array
            | TypeCtor::RawPtr(_)
            | TypeCtor::Ref(_)
            | TypeCtor::FnPtr { .. }
            | TypeCtor::Tuple { .. }
            | TypeCtor::Closure { .. } => None,
            TypeCtor::Adt(adt) => Some(GenericDefId::AdtId(adt)),
            TypeCtor::FnDef(callable) => Some(GenericDefId::from(callable)),
            TypeCtor::AssociatedType(type_alias) => Some(GenericDefId::TypeAliasId(type_alias)),
        }
    }
}

} // verus!
