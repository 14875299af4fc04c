//! Identifiers of the declarations that types refer to.
//!
//! The type layer never looks inside a declaration; it only carries these
//! identifiers around and hands them to the declaration database.

use vstd::prelude::*;
use vstd::std_specs::convert::FromSpecImpl;

verus! {

/// A compilation unit.
#[derive(Clone, Copy, PartialEq, Eq, Debug, Hash, Structural)]
pub struct CrateId(pub u32);

/// A module inside a crate.
#[derive(Clone, Copy, PartialEq, Eq, Debug, Hash, Structural)]
pub struct ModuleId {
    pub krate: CrateId,
    pub local_id: u32,
}

/// A function.
#[derive(Clone, Copy, PartialEq, Eq, Debug, Hash, Structural)]
pub struct FunctionId(pub u32);

/// A struct.
#[derive(Clone, Copy, PartialEq, Eq, Debug, Hash, Structural)]
pub struct StructId(pub u32);

/// A union.
#[derive(Clone, Copy, PartialEq, Eq, Debug, Hash, Structural)]
pub struct UnionId(pub u32);

/// An enum.
#[derive(Clone, Copy, PartialEq, Eq, Debug, Hash, Structural)]
pub struct EnumId(pub u32);

/// A variant of an enum.
#[derive(Clone, Copy, PartialEq, Eq, Debug, Hash, Structural)]
pub struct EnumVariantId {
    pub parent: EnumId,
    pub local_id: u32,
}

/// A constant.
#[derive(Clone, Copy, PartialEq, Eq, Debug, Hash, Structural)]
pub struct ConstId(pub u32);

/// A static.
#[derive(Clone, Copy, PartialEq, Eq, Debug, Hash, Structural)]
pub struct StaticId(pub u32);

/// A trait.
#[derive(Clone, Copy, PartialEq, Eq, Debug, Hash, Structural)]
pub struct TraitId(pub u32);

/// A type alias or an associated type.
#[derive(Clone, Copy, PartialEq, Eq, Debug, Hash, Structural)]
pub struct TypeAliasId(pub u32);

/// An impl block.
#[derive(Clone, Copy, PartialEq, Eq, Debug, Hash, Structural)]
pub struct ImplId(pub u32);

/// An expression inside a body.
#[derive(Clone, Copy, PartialEq, Eq, Debug, Hash, Structural)]
pub struct ExprId(pub u32);

/// Structures, unions and enumerations.
#[derive(Clone, Copy, PartialEq, Eq, Debug, Hash, Structural)]
pub enum AdtId {
    StructId(StructId),
    UnionId(UnionId),
    EnumId(EnumId),
}

/// Every declaration that can have generic parameters.
#[derive(Clone, Copy, PartialEq, Eq, Debug, Hash, Structural)]
pub enum GenericDefId {
    FunctionId(FunctionId),
    AdtId(AdtId),
    TraitId(TraitId),
    TypeAliasId(TypeAliasId),
    ImplId(ImplId),
    EnumVariantId(EnumVariantId),
    ConstId(ConstId),
}

/// Every declaration that owns a body of expressions.
#[derive(Clone, Copy, PartialEq, Eq, Debug, Hash, Structural)]
pub enum DefWithBodyId {
    FunctionId(FunctionId),
    StaticId(StaticId),
    ConstId(ConstId),
}

/// Where an associated item is declared.
#[derive(Clone, Copy, PartialEq, Eq, Debug, Hash, Structural)]
pub enum AssocContainerId {
    ModuleId(ModuleId),
    ImplId(ImplId),
    TraitId(TraitId),
}

/// A type parameter of a generic declaration.
#[derive(Clone, Copy, PartialEq, Eq, Debug, Hash, Structural)]
pub struct TypeParamId {
    pub parent: GenericDefId,
    pub local_id: u32,
}

/// Whether a reference or raw pointer allows mutation.
#[derive(Clone, Copy, PartialEq, Eq, Debug, Hash, Structural)]
pub enum Mutability {
    Shared,
    Mut,
}

/// Something that can be called and has its own function item type: a
/// function, a tuple struct constructor or a tuple variant constructor.
#[derive(Clone, Copy, PartialEq, Eq, Debug, Hash, Structural)]
pub enum CallableDef {
    FunctionId(FunctionId),
    StructId(StructId),
    EnumVariantId(EnumVariantId),
}

impl CallableDef {
    /// The generic declaration whose parameters a callable item takes: a
    /// tuple struct constructor takes those of its struct.
    pub open spec fn generic_def(self) -> GenericDefId {
        match self {
            CallableDef::FunctionId(f) => GenericDefId::FunctionId(f),
            CallableDef::StructId(s) => GenericDefId::AdtId(AdtId::StructId(s)),
            CallableDef::EnumVariantId(e) => GenericDefId::EnumVariantId(e),
        }
    }
}

impl From<CallableDef> for GenericDefId {
    fn from(def: CallableDef) -> (r: GenericDefId) {
        match def {
            CallableDef::FunctionId(f) => GenericDefId::FunctionId(f),
            CallableDef::StructId(s) => GenericDefId::AdtId(AdtId::StructId(s)),
            CallableDef::EnumVariantId(e) => GenericDefId::EnumVariantId(e),
        }
    }
}

impl FromSpecImpl<CallableDef> for GenericDefId {
    open spec fn obeys_from_spec() -> bool {
        true
    }

    open spec fn from_spec(def: CallableDef) -> GenericDefId {
        def.generic_def()
    }
}

/// The interned form of a type constructor.
#[derive(Clone, Copy, PartialEq, Eq, Debug, Hash, Structural)]
pub struct TypeCtorId(pub u32);

} // verus!
